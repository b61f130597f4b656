use rust_chaser::signing::sign_query;

#[test]
fn signs_with_hmac_sha256_in_lowercase_hex() {
    // The second HMAC-SHA256 vector of RFC 4231.
    assert_eq!(
        sign_query("Jefe", "what do ya want for nothing?"),
        "5bdcc146bf60754e6a042426089575c75a003f089d2739839dec58b964ec3843"
    );
}

#[test]
fn signs_the_exchange_documentation_example() {
    let secret = "NhqPtmdSJYdKjVHjA7PZj4Mge3R5YNiP1e3UZjInClVN65XAbvqqM6A7H5fATj0j";
    let query = "symbol=LTCBTC&side=BUY&type=LIMIT&timeInForce=GTC&quantity=1&price=0.1&recvWindow=5000&timestamp=1499827319559";
    assert_eq!(
        sign_query(secret, query),
        "c8db56825ae71d6d79447849e617115f4a920fa2acdcab2b053c4b2838bd6b71"
    );
}

#[test]
fn signature_is_sixty_four_hex_digits() {
    let sig = sign_query("", "");
    assert_eq!(sig.len(), 64);
    assert!(sig.chars().all(|c| c.is_ascii_hexdigit() && !c.is_ascii_uppercase()));
}
