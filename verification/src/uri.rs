use vstd::prelude::*;
use vstd::string::StringSliceAdditionalSpecFns;

verus! {

/// A URI as the transport reads it: its canonical text and the parts of its
/// authority that connecting needs.
pub struct Uri {
    text: String,
    host: Option<String>,
    port: Option<u16>,
    has_authority: bool,
}

/// The mathematical view of a [`Uri`].
pub struct UriView {
    pub text: Seq<char>,
    pub host: Option<Seq<char>>,
    pub port: Option<u16>,
    pub has_authority: bool,
}

impl Uri {
    /// A host is present exactly when an authority is, and a port only with an
    /// authority.
    #[verifier::type_invariant]
    spec fn well_formed(self) -> bool {
        &&& (self.host is Some <==> self.has_authority)
        &&& (self.port is Some ==> self.has_authority)
    }
}

impl View for Uri {
    type V = UriView;

    closed spec fn view(&self) -> UriView {
        UriView {
            text: self.text@,
            host: match self.host {
                Some(h) => Some(h@),
                None => None,
            },
            port: self.port,
            has_authority: self.has_authority,
        }
    }
}

/// What `http::Uri::try_from(&[u8])` yields for the given bytes, read back as
/// its display text, host, port and whether it has an authority; `None` when
/// the bytes are refused.
pub uninterp spec fn parse_uri_spec(bytes: Seq<u8>) -> Option<UriView>;

/// Parses `bytes` with `http::Uri::try_from(&[u8])` and reads the result back
/// through `to_string`, `host`, `port_u16` and `authority`.
/// Trusted: the result is the named parse of the bytes; the host is present
/// exactly when the authority is (`host` is `authority().map(|a| a.host())`),
/// and a port only comes with an authority (`port` goes through `authority`).
#[verifier::external_body]
pub(crate) fn parse_uri(bytes: &[u8]) -> (r: Option<Uri>)
    ensures
        match r {
            Some(u) => parse_uri_spec(bytes@) == Some(u@),
            None => parse_uri_spec(bytes@) is None,
        },
        r matches Some(u) ==> (u@.host is Some <==> u@.has_authority),
        r matches Some(u) ==> (u@.port is Some ==> u@.has_authority),
{
    match http::Uri::try_from(bytes) {
        Ok(u) => Some(Uri {
            text: u.to_string(),
            host: u.host().map(|h| h.to_string()),
            port: u.port_u16(),
            has_authority: u.authority().is_some(),
        }),
        Err(_) => None,
    }
}

/// A byte that `http::HeaderValue` accepts: visible characters from space
/// upwards except DEL, and horizontal tab.
pub open spec fn is_header_value_byte(b: u8) -> bool {
    (b >= 32 && b != 127) || b == 9
}

/// Every byte of `bytes` is accepted in a header value.
pub open spec fn is_header_value(bytes: Seq<u8>) -> bool {
    forall|i: int| 0 <= i < bytes.len() ==> is_header_value_byte(#[trigger] bytes[i])
}

/// Which bytes a header value may hold: every visible ASCII character and
/// the space, horizontal tab, and every byte from 128 up; no other control
/// character, and not DEL.
pub proof fn lemma_header_value_bytes(b: u8)
    ensures
        32 <= b <= 126 ==> is_header_value_byte(b),
        b == 9 ==> is_header_value_byte(b),
        b >= 128 ==> is_header_value_byte(b),
        b < 32 && b != 9 ==> !is_header_value_byte(b),
        b == 127 ==> !is_header_value_byte(b),
{
}

/// Text made of visible ASCII characters, spaces and tabs is a valid header
/// value; a line feed or a DEL anywhere makes it invalid.
pub proof fn lemma_header_value_text(bytes: Seq<u8>)
    ensures
        (forall|i: int| 0 <= i < bytes.len() ==> (32 <= #[trigger] bytes[i] <= 126 || bytes[i] == 9))
            ==> is_header_value(bytes),
        (exists|i: int| 0 <= i < bytes.len() && (#[trigger] bytes[i] == 10 || bytes[i] == 127))
            ==> !is_header_value(bytes),
{
}

/// Whether `http::HeaderValue::from_str` accepts `s`: every byte of its
/// UTF-8 encoding is accepted in a header value.
pub fn is_header_value_str(s: &str) -> (r: bool)
    ensures
        r == is_header_value(s.spec_bytes()),
        (forall|i: int| 0 <= i < s.spec_bytes().len() ==> (32 <= #[trigger] s.spec_bytes()[i] <= 126
            || s.spec_bytes()[i] == 9)) ==> r,
        (exists|i: int| 0 <= i < s.spec_bytes().len() && (#[trigger] s.spec_bytes()[i] < 32
            && s.spec_bytes()[i] != 9 || s.spec_bytes()[i] == 127)) ==> !r,
{
    let bytes = s.as_bytes();
    let mut i: usize = 0;
    while i < bytes.len()
        invariant
            i <= bytes@.len(),
            bytes@ == s.spec_bytes(),
            forall|j: int| 0 <= j < i ==> is_header_value_byte(#[trigger] bytes@[j]),
        decreases bytes.len() - i,
    {
        let b = bytes[i];
        if !((b >= 32 && b != 127) || b == 9) {
            return false;
        }
        i = i + 1;
    }
    true
}

impl Clone for Uri {
    fn clone(&self) -> (r: Self)
        ensures
            r@ == self@,
    {
        proof {
            use_type_invariant(self);
        }
        let host = match &self.host {
            Some(h) => Some(h.clone()),
            None => None,
        };
        Uri { text: self.text.clone(), host, port: self.port, has_authority: self.has_authority }
    }
}

impl Uri {
    /// Parses the bytes of a URI; `None` when they are not a valid URI.
    pub fn parse(bytes: &[u8]) -> (r: Option<Uri>)
        ensures
            match r {
                Some(u) => parse_uri_spec(bytes@) == Some(u@),
                None => parse_uri_spec(bytes@) is None,
            },
    {
        parse_uri(bytes)
    }

    /// The URI's canonical text.
    pub fn as_str(&self) -> (r: &str)
        ensures
            r@ == self@.text,
    {
        self.text.as_str()
    }

    /// The host of the URI's authority, if it has one.
    pub fn host(&self) -> (r: Option<&str>)
        ensures
            match r {
                Some(h) => self@.host == Some(h@),
                None => self@.host is None,
            },
    {
        match &self.host {
            Some(h) => Some(h.as_str()),
            None => None,
        }
    }

    /// The port of the URI's authority, if it names one.
    pub fn port_u16(&self) -> (r: Option<u16>)
        ensures
            r == self@.port,
    {
        self.port
    }

    /// Whether the URI has an authority part.
    pub fn has_authority(&self) -> (r: bool)
        ensures
            r == self@.has_authority,
            self@.host is Some <==> self@.has_authority,
            self@.port is Some ==> self@.has_authority,
    {
        proof {
            use_type_invariant(self);
        }
        self.has_authority
    }

}

} // verus!
