use crate::config::Config;
use crate::text::space::{trim_text, trimmed};
use vstd::prelude::*;
use vstd::utf8::{decode_utf8, encode_utf8, encode_utf8_decode_utf8, is_char_boundary};

verus! {

/// How many bytes of a client id are shown at either end of its masked form.
pub const SHOWN_BYTES: usize = 4;

/// Whether a client id can be masked: one that takes more than twice `SHOWN_BYTES`
/// bytes must let whole characters be cut off at both ends.
pub open spec fn maskable(id: Seq<char>) -> bool {
    let bytes = encode_utf8(id);
    bytes.len() > 2 * SHOWN_BYTES ==> is_char_boundary(bytes, SHOWN_BYTES as int)
        && is_char_boundary(bytes, bytes.len() - SHOWN_BYTES)
}

/// A client id as it is shown: of one that takes more than twice `SHOWN_BYTES` bytes
/// the first and the last `SHOWN_BYTES` bytes with an ellipsis between them, of any
/// other four asterisks.
pub open spec fn masked(id: Seq<char>) -> Seq<char> {
    let bytes = encode_utf8(id);
    if bytes.len() > 2 * SHOWN_BYTES {
        decode_utf8(bytes.subrange(0, SHOWN_BYTES as int)) + "…"@ + decode_utf8(
            bytes.subrange(bytes.len() - SHOWN_BYTES, bytes.len() as int),
        )
    } else {
        "****"@
    }
}

/// Tells whether a client id can be masked.
pub fn is_maskable(id: &str) -> (can: bool)
    ensures
        can == maskable(id@),
{
    let n = id.as_bytes().len();
    n <= 2 * SHOWN_BYTES || (id.is_char_boundary(SHOWN_BYTES) && id.is_char_boundary(
        n - SHOWN_BYTES,
    ))
}

/// Masks a client id for display.
pub fn mask_client_id(id: &str) -> (shown: String)
    requires
        maskable(id@),
    ensures
        shown@ == masked(id@),
{
    let n = id.as_bytes().len();
    if n > 2 * SHOWN_BYTES {
        let (head, _) = id.split_at(SHOWN_BYTES);
        let (_, tail) = id.split_at(n - SHOWN_BYTES);
        proof {
            encode_utf8_decode_utf8(head@);
            encode_utf8_decode_utf8(tail@);
        }
        let mut shown = String::from_str(head);
        shown.append("…");
        shown.append(tail);
        shown
    } else {
        String::from_str("****")
    }
}

/// How the credentials stand.
#[derive(Debug, PartialEq, Eq)]
pub enum AuthStatus {
    /// A part of the client credentials is not set up.
    NotConfigured,
    /// Both parts are set up; the client id is given as it may be shown.
    Configured { masked_id: String },
}

/// Tells how the credentials of `config` stand.
pub fn show_status(config: &Config) -> (status: AuthStatus)
    requires
        config.client_id is Some && config.client_secret is Some ==> maskable(
            config.client_id->0@,
        ),
    ensures
        match status {
            AuthStatus::NotConfigured => !(config.client_id is Some && config.client_secret
                is Some),
            AuthStatus::Configured { masked_id } => {
                &&& config.client_id is Some
                &&& config.client_secret is Some
                &&& masked_id@ == masked(config.client_id->0@)
            },
        },
{
    if !config.has_credentials() {
        return AuthStatus::NotConfigured;
    }
    match &config.client_id {
        Some(id) => AuthStatus::Configured { masked_id: mask_client_id(id.as_str()) },
        None => AuthStatus::NotConfigured,
    }
}

/// Takes the credentials that the user has entered into `config`, each without the
/// whitespace around it. The aliases stay as they are.
pub fn setup_credentials(config: &mut Config, client_id: &str, client_secret: &str)
    ensures
        final(config).client_id is Some,
        final(config).client_id->0@ == trimmed(client_id@),
        final(config).client_secret is Some,
        final(config).client_secret->0@ == trimmed(client_secret@),
        final(config).aliases == old(config).aliases,
{
    config.client_id = Some(trim_text(client_id));
    config.client_secret = Some(trim_text(client_secret));
}

} // verus!
