use stock_opname::get_db_path;

#[test]
fn get_db_path_appends_file_name() {
    let path = get_db_path("/home/user/.local/share/stock_opname");
    assert_eq!(path, "/home/user/.local/share/stock_opname/stock_opname.db");
}

#[test]
fn get_db_path_keeps_trailing_separator() {
    let path = get_db_path("/data/");
    assert_eq!(path, "/data/stock_opname.db");
}

#[test]
fn get_db_path_empty_dir_gives_bare_file_name() {
    let path = get_db_path("");
    assert_eq!(path, "stock_opname.db");
}

#[test]
fn get_db_path_deterministic_across_calls() {
    let first = get_db_path("/srv/app data");
    let second = get_db_path("/srv/app data");
    assert_eq!(first, second);
}
