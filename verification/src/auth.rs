use vstd::prelude::*;
use vstd::string::*;

verus! {

/// What `base64::encode` makes of a string's UTF-8 bytes, with the
/// standard alphabet and padding: a function of the input alone.
pub uninterp spec fn base64_of(s: Seq<char>) -> Seq<char>;

/// Relies on `base64::encode` (standard alphabet, padded).
#[verifier::external_body]
fn encode_base64(s: &str) -> (r: String)
    ensures
        r@ == base64_of(s@),
{
    base64::encode(s)
}

/// The HTTP Basic credential derived from a username and password:
/// the pair joined with a colon, encoded, and prefixed with the scheme.
pub open spec fn spec_credential(user: Seq<char>, pass: Seq<char>) -> Seq<char> {
    "Basic "@ + base64_of(user + ":"@ + pass)
}

/// The Basic-authentication header value, built once at startup and
/// never mutated afterwards.
#[derive(Debug)]
pub struct Authorization {
    value: String,
}

impl View for Authorization {
    type V = Seq<char>;

    closed spec fn view(&self) -> Seq<char> {
        self.value@
    }
}

impl Authorization {
    pub fn new(username: &str, password: &str) -> (r: Authorization)
        ensures
            r@ == spec_credential(username@, password@),
    {
        let mut joined = String::from_str(username);
        joined.append(":");
        joined.append(password);
        let encoded = encode_base64(joined.as_str());
        let mut value = String::from_str("Basic ");
        value.append(encoded.as_str());
        Authorization { value }
    }

    pub fn auth_header_value(&self) -> (r: &String)
        ensures
            r@ == self@,
    {
        &self.value
    }
}

/// Law: the credential is a function of the username and password alone,
/// so building it twice from the same pair yields identical output.
pub proof fn lemma_credential_deterministic(
    a: Authorization,
    b: Authorization,
    user: Seq<char>,
    pass: Seq<char>,
)
    requires
        a@ == spec_credential(user, pass),
        b@ == spec_credential(user, pass),
    ensures
        a@ == b@,
{
}

} // verus!
