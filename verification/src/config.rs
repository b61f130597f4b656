//! Reading the configuration: credentials and the test-network switch as
//! they come from the environment, and the start-up report of what was found.

use vstd::prelude::*;
use vstd::string::StringSliceAdditionalSpecFns;
use vstd::utf8::{decode_utf8, encode_utf8, is_char_boundary};
use crate::env_load::env_candidates;
use crate::text::{chars_of, trim_text, trimmed, TrimKind};

verus! {

/// The contract that is chased (USDⓈ-M futures).
pub const SYMBOL: &'static str = "1000PEPEUSDC";

/// The book-ticker stream of that contract.
pub const BOOK_TICKER_STREAM: &'static str = "wss://fstream.binance.com/ws/1000pepeusdc@bookTicker";

/// A credential as read from the environment (missing reads as empty):
/// surrounding white space removed, then surrounding double quotes.
pub open spec fn cleaned_credential(raw: Option<Seq<char>>) -> Seq<char> {
    let text = match raw {
        Some(t) => t,
        None => Seq::empty(),
    };
    trimmed(trimmed(text, TrimKind::WhiteSpace), TrimKind::Quote)
}

/// Cleans a credential read from the environment (see `cleaned_credential`).
pub fn clean_credential(raw: Option<String>) -> (r: String)
    ensures
        r@ == cleaned_credential(
            match raw {
                Some(t) => Some(t@),
                None => None,
            },
        ),
{
    let text = match raw {
        Some(t) => t,
        None => String::new(),
    };
    let spaced = trim_text(text.as_str(), TrimKind::WhiteSpace);
    trim_text(spaced.as_str(), TrimKind::Quote)
}

/// The test network is used exactly when the setting, with surrounding
/// white space removed, reads `true`; a missing or unreadable setting means
/// the live exchange.
pub open spec fn testnet_selected(raw: Option<Seq<char>>) -> bool {
    match raw {
        Some(t) => trimmed(t, TrimKind::WhiteSpace) == "true"@,
        None => false,
    }
}

fn same_text(a: &str, b: &str) -> (r: bool)
    ensures
        r == (a@ == b@),
{
    let x = chars_of(a);
    let y = chars_of(b);
    if x.len() != y.len() {
        return false;
    }
    let mut i: usize = 0;
    while i < x.len()
        invariant
            x@ == a@,
            y@ == b@,
            x@.len() == y@.len(),
            i <= x@.len(),
            forall|k: int| 0 <= k < i ==> x@[k] == y@[k],
        decreases x@.len() - i,
    {
        if x[i] != y[i] {
            return false;
        }
        i = i + 1;
    }
    assert(a@ =~= b@);
    true
}

/// Reads the test-network setting (see `testnet_selected`).
pub fn parse_testnet(raw: Option<String>) -> (b: bool)
    ensures
        b == testnet_selected(
            match raw {
                Some(t) => Some(t@),
                None => None,
            },
        ),
{
    match raw {
        Some(t) => {
            let spaced = trim_text(t.as_str(), TrimKind::WhiteSpace);
            same_text(spaced.as_str(), "true")
        },
        None => false,
    }
}

/// The API key as shown in the log: its first and last four bytes around
/// an ellipsis when it is longer than eight bytes, otherwise a note that it
/// is too short.
pub open spec fn masked_key(key: Seq<char>) -> Seq<char> {
    let bytes = encode_utf8(key);
    if bytes.len() > 8 {
        decode_utf8(bytes.take(4)) + "..."@ + decode_utf8(bytes.skip(bytes.len() - 4))
    } else {
        "Corta / Inválida"@
    }
}

/// The key can be cut four bytes from each end.
pub open spec fn maskable(key: &str) -> bool {
    let bytes = encode_utf8(key@);
    bytes.len() > 8 ==> is_char_boundary(bytes, 4) && is_char_boundary(bytes, bytes.len() - 4)
}

/// Masks the API key for the log (see `masked_key`).
pub fn mask_api_key(key: &str) -> (r: String)
    requires
        maskable(key),
    ensures
        r@ == masked_key(key@),
{
    broadcast use vstd::utf8::encode_utf8_decode_utf8;
    let n = key.as_bytes().len();
    let ghost bytes = encode_utf8(key@);
    assert(key.spec_bytes() == bytes);
    if n > 8 {
        let (left, _) = key.split_at(4);
        let (_, right) = key.split_at(n - 4);
        proof {
            assert(encode_utf8(left@) =~= bytes.take(4));
            assert(encode_utf8(right@) =~= bytes.skip(bytes.len() - 4));
            assert(decode_utf8(encode_utf8(left@)) == left@);
            assert(decode_utf8(encode_utf8(right@)) == right@);
            assert(decode_utf8(bytes.take(4)) == left@);
            assert(decode_utf8(bytes.skip(bytes.len() - 4)) == right@);
        }
        let mut r = String::from_str(left);
        r.append("...");
        r.append(right);
        r
    } else {
        String::from_str("Corta / Inválida")
    }
}

/// The start-up report about the credentials: an error when the API key
/// is missing, otherwise where the configuration came from and the masked
/// key.
pub open spec fn startup_report(api_key: Seq<char>, env_path: Option<Seq<char>>) -> Seq<Seq<char>> {
    if api_key.len() == 0 {
        seq!["[ERROR] BINANCE_API_KEY no encontrada. Asegúrate de configurar backend/.env"@]
    } else {
        seq![
            "[System] Archivo .env cargado con éxito. Path: "@ + match env_path {
                Some(p) => "Some(\""@ + p + "\")"@,
                None => "None"@,
            },
            "[System] API Key detectada: "@ + masked_key(api_key),
        ]
    }
}

/// The start-up log lines (see `startup_report`); `env_path` is the
/// configuration file that was loaded, one of the lookup candidates.
pub fn startup_lines(api_key: &str, env_path: Option<&str>) -> (lines: Vec<String>)
    requires
        maskable(api_key),
        env_path matches Some(p) ==> exists|i: int|
            0 <= i < env_candidates().len() && p@ == #[trigger] env_candidates()[i],
    ensures
        lines.deep_view() == startup_report(
            api_key@,
            match env_path {
                Some(p) => Some(p@),
                None => None,
            },
        ),
{
    let mut lines: Vec<String> = Vec::new();
    if api_key.is_empty() {
        lines.push(
            String::from_str("[ERROR] BINANCE_API_KEY no encontrada. Asegúrate de configurar backend/.env"),
        );
    } else {
        let mut first = String::from_str("[System] Archivo .env cargado con éxito. Path: ");
        match env_path {
            Some(p) => {
                first.append("Some(\"");
                first.append(p);
                first.append("\")");
            },
            None => {
                first.append("None");
            },
        }
        let ghost path_text = match env_path {
            Some(p) => "Some(\""@ + p@ + "\")"@,
            None => "None"@,
        };
        assert(first@ =~= "[System] Archivo .env cargado con éxito. Path: "@ + path_text);
        lines.push(first);
        let mut second = String::from_str("[System] API Key detectada: ");
        let masked = mask_api_key(api_key);
        second.append(masked.as_str());
        lines.push(second);
        assert(lines.deep_view()[0] == "[System] Archivo .env cargado con éxito. Path: "@ + path_text);
    }
    assert(lines.deep_view() =~= startup_report(
        api_key@,
        match env_path {
            Some(p) => Some(p@),
            None => None,
        },
    ));
    lines
}

} // verus!
