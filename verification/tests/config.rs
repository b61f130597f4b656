use rust_chaser::config::{clean_credential, mask_api_key, parse_testnet, startup_lines};

#[test]
fn credentials_lose_spaces_then_quotes() {
    assert_eq!(clean_credential(Some("  \"abc\"  ".to_string())), "abc");
    assert_eq!(clean_credential(Some("\"\"abc".to_string())), "abc");
    assert_eq!(clean_credential(Some("\" abc \"".to_string())), " abc ");
    assert_eq!(clean_credential(None), "");
}

#[test]
fn testnet_only_when_true() {
    assert!(parse_testnet(Some(" true ".to_string())));
    assert!(!parse_testnet(Some("TRUE".to_string())));
    assert!(!parse_testnet(Some("false".to_string())));
    assert!(!parse_testnet(Some("yes".to_string())));
    assert!(!parse_testnet(None));
}

#[test]
fn api_key_is_masked() {
    assert_eq!(mask_api_key("abcdefghijkl"), "abcd...ijkl");
    assert_eq!(mask_api_key("abcdefghi"), "abcd...fghi");
    assert_eq!(mask_api_key("abcdefgh"), "Corta / Inválida");
    assert_eq!(mask_api_key(""), "Corta / Inválida");
}

#[test]
fn startup_report_lines() {
    assert_eq!(
        startup_lines("", Some(".env")),
        vec!["[ERROR] BINANCE_API_KEY no encontrada. Asegúrate de configurar backend/.env".to_string()]
    );
    assert_eq!(
        startup_lines("abcdefghijkl", Some("../backend/.env")),
        vec![
            "[System] Archivo .env cargado con éxito. Path: Some(\"../backend/.env\")".to_string(),
            "[System] API Key detectada: abcd...ijkl".to_string(),
        ]
    );
    assert_eq!(
        startup_lines("short", None),
        vec![
            "[System] Archivo .env cargado con éxito. Path: None".to_string(),
            "[System] API Key detectada: Corta / Inválida".to_string(),
        ]
    );
}
