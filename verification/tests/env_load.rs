use rust_chaser::env_load::{resolve_env_path, resolve_env_path_from};

#[test]
fn prefers_root_env_over_backend_paths() {
    let exists = |p: &str| p == ".env" || p == "../backend/.env" || p == "backend/.env";
    assert_eq!(resolve_env_path_from(exists), Some(".env"));
}

#[test]
fn falls_back_to_parent_backend_env() {
    let exists = |p: &str| p == "../backend/.env";
    assert_eq!(resolve_env_path_from(exists), Some("../backend/.env"));
}

#[test]
fn falls_back_to_nested_backend_env() {
    let exists = |p: &str| p == "backend/.env";
    assert_eq!(resolve_env_path_from(exists), Some("backend/.env"));
}

#[test]
fn returns_none_when_no_env_file_exists() {
    let exists = |_p: &str| false;
    assert_eq!(resolve_env_path_from(exists), None);
}

#[test]
fn prefers_parent_backend_over_nested_backend() {
    let exists = |p: &str| p == "../backend/.env" || p == "backend/.env";
    assert_eq!(resolve_env_path_from(exists), Some("../backend/.env"));
}

#[test]
fn asks_candidates_in_order_and_stops_at_first_hit() {
    let asked = std::cell::RefCell::new(Vec::new());
    let exists = |p: &str| {
        asked.borrow_mut().push(p.to_string());
        p == "../backend/.env"
    };
    assert_eq!(resolve_env_path_from(exists), Some("../backend/.env"));
    assert_eq!(*asked.borrow(), vec![".env".to_string(), "../backend/.env".to_string()]);
}

#[test]
fn disk_lookup_returns_a_candidate_or_none() {
    let found = resolve_env_path();
    assert!(matches!(found, None | Some(".env") | Some("../backend/.env") | Some("backend/.env")));
}
