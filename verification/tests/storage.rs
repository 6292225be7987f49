use authstore::auth::create_jwt;
use authstore::errors::ApiError;
use authstore::files::{download_file, is_safe_filename, upload_file, FileStore};

const SECRET: &[u8] = b"a-signing-secret";
const NOW: usize = 1_700_000_000;

fn valid_token() -> String {
    create_jwt("alice", "user", NOW, SECRET)
}

#[test]
fn upload_then_download_returns_identical_bytes() {
    let mut store = FileStore::new();
    let content = vec![0u8, 1, 2, 253, 254, 255, 42];
    let name = upload_file(&mut store, Some(b"report.pdf"), content.clone()).unwrap();
    let token = valid_token();
    let got = download_file(&store, &token, &name, NOW, SECRET).unwrap();
    assert_eq!(got, &content);
}

#[test]
fn storage_names_are_prefixed_and_never_collide() {
    let mut store = FileStore::new();
    let first = upload_file(&mut store, Some(b"same.txt"), vec![1]).unwrap();
    let second = upload_file(&mut store, Some(b"same.txt"), vec![2]).unwrap();
    assert_ne!(first, second);
    assert_eq!(store.files.len(), 2);
    // 36 identifier bytes, an underscore, then the display name.
    assert_eq!(first.len(), 37 + "same.txt".len());
    assert_eq!(first[36], b'_');
    assert_eq!(&first[37..], b"same.txt");
    let token = valid_token();
    assert_eq!(download_file(&store, &token, &first, NOW, SECRET).unwrap(), &vec![1]);
    assert_eq!(download_file(&store, &token, &second, NOW, SECRET).unwrap(), &vec![2]);
}

#[test]
fn traversal_name_is_stored_inside_the_root() {
    let mut store = FileStore::new();
    let name = upload_file(&mut store, Some(b"../../etc/passwd"), vec![9, 9]).unwrap();
    assert!(!name.contains(&b'/'));
    assert!(!name.contains(&b'\\'));
    assert_eq!(&name[37..], b"....etcpasswd");
    assert!(is_safe_filename(&name));
}

#[test]
fn undeclared_filename_gets_a_synthesized_name() {
    let mut store = FileStore::new();
    let name = upload_file(&mut store, None, vec![7]).unwrap();
    assert_eq!(name.len(), 73);
    assert_eq!(name[36], b'_');
    assert!(!name.contains(&b'/'));
    let token = valid_token();
    assert_eq!(download_file(&store, &token, &name, NOW, SECRET).unwrap(), &vec![7]);
}

#[test]
fn download_rejects_traversal_requests() {
    let mut store = FileStore::new();
    upload_file(&mut store, Some(b"passwd"), vec![1]).unwrap();
    let token = valid_token();
    assert_eq!(
        download_file(&store, &token, b"../../etc/passwd", NOW, SECRET),
        Err(ApiError::NotFound)
    );
    assert_eq!(download_file(&store, &token, b"..", NOW, SECRET), Err(ApiError::NotFound));
    assert_eq!(download_file(&store, &token, b".", NOW, SECRET), Err(ApiError::NotFound));
    assert_eq!(download_file(&store, &token, b"", NOW, SECRET), Err(ApiError::NotFound));
    assert_eq!(
        download_file(&store, &token, b"a\\b", NOW, SECRET),
        Err(ApiError::NotFound)
    );
}

#[test]
fn download_requires_a_valid_token() {
    let mut store = FileStore::new();
    let name = upload_file(&mut store, Some(b"secret.bin"), vec![5]).unwrap();
    assert_eq!(
        download_file(&store, "", &name, NOW, SECRET),
        Err(ApiError::Unauthenticated)
    );
    let foreign = create_jwt("mallory", "user", NOW, b"other-secret");
    assert_eq!(
        download_file(&store, &foreign, &name, NOW, SECRET),
        Err(ApiError::Unauthenticated)
    );
    let stale = valid_token();
    assert_eq!(
        download_file(&store, &stale, &name, NOW + 2 * 24 * 60 * 60, SECRET),
        Err(ApiError::Unauthenticated)
    );
}

#[test]
fn missing_file_is_not_found() {
    let store = FileStore::new();
    let token = valid_token();
    assert_eq!(
        download_file(&store, &token, b"absent.txt", NOW, SECRET),
        Err(ApiError::NotFound)
    );
}

#[test]
fn safe_filename_judgement() {
    assert!(is_safe_filename(b"report.pdf"));
    assert!(is_safe_filename(b"...hidden"));
    assert!(!is_safe_filename(b""));
    assert!(!is_safe_filename(b"."));
    assert!(!is_safe_filename(b".."));
    assert!(!is_safe_filename(b"a/b"));
    assert!(!is_safe_filename(b"\\share"));
}
