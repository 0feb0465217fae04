use vstd::prelude::*;
use vstd::string::{StringExecFns, StringSliceAdditionalSpecFns};

verus! {

/// The standard base64 encoding (RFC 4648 alphabet, with padding) of `bytes`.
pub uninterp spec fn base64_standard(bytes: Seq<u8>) -> Seq<char>;

/// Relies on `base64::encode`: the standard alphabet with padding, applied to
/// the UTF-8 bytes of `s`. It panics only where the encoded length overflows
/// `usize`, which the bound rules out.
#[verifier::external_body]
fn encode_base64(s: &str) -> (r: String)
    requires
        s.spec_bytes().len() <= usize::MAX / 2,
    ensures
        r@ == base64_standard(s.spec_bytes()),
{
    base64::encode(s)
}

/// The `Authorization` header value that an HTTP client sends for the
/// credential `user:password` (its UTF-8 bytes).
pub open spec fn basic_header(credential: Seq<u8>) -> Seq<char> {
    "Basic "@ + base64_standard(credential)
}

/// Builds the Basic `Authorization` header value for `credential`.
pub fn basic_auth_header(credential: &str) -> (r: String)
    requires
        credential.spec_bytes().len() <= usize::MAX / 2,
    ensures
        r@ == basic_header(credential.spec_bytes()),
{
    let encoded = encode_base64(credential);
    let mut header = "Basic ".to_owned();
    header.append(encoded.as_str());
    header
}

/// The storage key for a credential string: the credential itself.
pub open spec fn derived_key(credential: Seq<char>) -> Seq<char> {
    credential
}

/// Resolves the credential string a request presents to its storage key.
pub fn derive_key(credential: &str) -> (r: String)
    ensures
        r@ == derived_key(credential@),
{
    credential.to_owned()
}

/// Whether a write under `key` is allowed when the configured admin key is
/// `admin` (`None`: no single-user mode).
pub open spec fn permits_write(admin: Option<Seq<char>>, key: Seq<char>) -> bool {
    match admin {
        None => true,
        Some(a) => a == key,
    }
}

/// Who may write: anyone, or, in single-user mode, only the holder of the
/// admin key.
pub struct AccessPolicy {
    admin_key: Option<String>,
}

impl View for AccessPolicy {
    type V = Option<Seq<char>>;

    closed spec fn view(&self) -> Option<Seq<char>> {
        match self.admin_key {
            None => None,
            Some(k) => Some(k@),
        }
    }
}

impl AccessPolicy {
    /// No admin key: every caller may write.
    pub fn open() -> (r: AccessPolicy)
        ensures
            r@ == None::<Seq<char>>,
    {
        AccessPolicy { admin_key: None }
    }

    /// Single-user mode for the admin credential `user:password`: the admin
    /// key is the Basic header value a client sends for it.
    pub fn single_user(admin_credential: &str) -> (r: AccessPolicy)
        requires
            admin_credential.spec_bytes().len() <= usize::MAX / 2,
        ensures
            r@ == Some(basic_header(admin_credential.spec_bytes())),
    {
        AccessPolicy { admin_key: Some(basic_auth_header(admin_credential)) }
    }

    /// Whether a write under `key` is allowed.
    pub fn permits(&self, key: &String) -> (r: bool)
        ensures
            r == permits_write(self@, key@),
    {
        match &self.admin_key {
            None => true,
            Some(admin) => *admin == *key,
        }
    }
}

} // verus!
