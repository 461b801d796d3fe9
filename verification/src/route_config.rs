//! The declarative route configuration: one entry per local endpoint.

use vstd::prelude::*;

verus! {

/// The HTTP methods a route can answer on or issue upstream.
#[derive(Clone, Copy, Debug, PartialEq, Eq, Structural, Hash)]
pub enum HttpMethod {
    Get,
    Post,
    Put,
    Delete,
    Head,
    Patch,
}

/// Maps an ASCII upper-case letter to its lower-case form and leaves every
/// other character alone.
pub open spec fn ascii_lower(c: char) -> char {
    if 'A' <= c && c <= 'Z' {
        ((c as u8) + 32) as char
    } else {
        c
    }
}

/// A string with each ASCII upper-case letter folded to lower case.
pub open spec fn lowered(s: Seq<char>) -> Seq<char> {
    s.map_values(|c: char| ascii_lower(c))
}

/// The method that a configuration word stands for, letter case ignored.
pub open spec fn method_named(word: Seq<char>) -> Option<HttpMethod> {
    let w = lowered(word);
    if w == HttpMethod::Get.name() {
        Some(HttpMethod::Get)
    } else if w == HttpMethod::Post.name() {
        Some(HttpMethod::Post)
    } else if w == HttpMethod::Patch.name() {
        Some(HttpMethod::Patch)
    } else if w == HttpMethod::Put.name() {
        Some(HttpMethod::Put)
    } else if w == HttpMethod::Head.name() {
        Some(HttpMethod::Head)
    } else if w == HttpMethod::Delete.name() {
        Some(HttpMethod::Delete)
    } else {
        None
    }
}

fn lower_char(c: char) -> (r: char)
    ensures
        r == ascii_lower(c),
{
    if 'A' <= c && c <= 'Z' {
        ((c as u8) + 32) as char
    } else {
        c
    }
}

/// Whether `word`, with its letters folded to lower case, reads `name`.
fn reads_as(word: &str, name: &str) -> (r: bool)
    ensures
        r == (lowered(word@) == name@),
{
    let n: usize = name.unicode_len();
    if word.unicode_len() != n {
        return false;
    }
    let mut i: usize = 0;
    while i < n
        invariant
            i <= n,
            n == name@.len(),
            n == word@.len(),
            forall|j: int| 0 <= j < i ==> ascii_lower(word@[j]) == name@[j],
        decreases n - i,
    {
        if lower_char(word.get_char(i)) != name.get_char(i) {
            assert(lowered(word@)[i as int] != name@[i as int]);
            return false;
        }
        i = i + 1;
    }
    assert(lowered(word@) =~= name@);
    true
}

impl HttpMethod {
    /// The lower-case word that names the method in configuration and in
    /// route keys.
    pub open spec fn name(self) -> Seq<char> {
        match self {
            HttpMethod::Get => seq!['g', 'e', 't'],
            HttpMethod::Post => seq!['p', 'o', 's', 't'],
            HttpMethod::Put => seq!['p', 'u', 't'],
            HttpMethod::Delete => seq!['d', 'e', 'l', 'e', 't', 'e'],
            HttpMethod::Head => seq!['h', 'e', 'a', 'd'],
            HttpMethod::Patch => seq!['p', 'a', 't', 'c', 'h'],
        }
    }

    /// The method's lower-case name.
    pub fn as_str(&self) -> (r: &'static str)
        ensures
            r@ == self.name(),
    {
        proof {
            reveal_strlit("get");
            reveal_strlit("post");
            reveal_strlit("put");
            reveal_strlit("delete");
            reveal_strlit("head");
            reveal_strlit("patch");
        }
        let r = match self {
            HttpMethod::Get => "get",
            HttpMethod::Post => "post",
            HttpMethod::Put => "put",
            HttpMethod::Delete => "delete",
            HttpMethod::Head => "head",
            HttpMethod::Patch => "patch",
        };
        assert(r@ =~= self.name());
        r
    }

    /// The method's lower-case name as an owned string.
    pub fn to_string(&self) -> (r: String)
        ensures
            r@ == self.name(),
    {
        self.as_str().to_owned()
    }

    /// Reads a method from its name, ignoring the case of ASCII letters.
    /// Any other word is refused.
    pub fn try_from(value: &str) -> (r: Result<HttpMethod, ()>)
        ensures
            r == match method_named(value@) {
                Some(m) => Ok::<HttpMethod, ()>(m),
                None => Err::<HttpMethod, ()>(()),
            },
    {
        if reads_as(value, HttpMethod::Get.as_str()) {
            Ok(HttpMethod::Get)
        } else if reads_as(value, HttpMethod::Post.as_str()) {
            Ok(HttpMethod::Post)
        } else if reads_as(value, HttpMethod::Patch.as_str()) {
            Ok(HttpMethod::Patch)
        } else if reads_as(value, HttpMethod::Put.as_str()) {
            Ok(HttpMethod::Put)
        } else if reads_as(value, HttpMethod::Head.as_str()) {
            Ok(HttpMethod::Head)
        } else if reads_as(value, HttpMethod::Delete.as_str()) {
            Ok(HttpMethod::Delete)
        } else {
            Err(())
        }
    }
}

impl Default for HttpMethod {
    fn default() -> (r: HttpMethod)
        ensures
            r == HttpMethod::Get,
    {
        HttpMethod::Get
    }
}

/// Distinct methods have distinct names, so a route key that carries the
/// name tells the methods apart.
pub proof fn method_names_differ(a: HttpMethod, b: HttpMethod)
    ensures
        a.name() == b.name() <==> a == b,
{
    if a != b {
        assert(a.name().len() != b.name().len() || a.name()[1] != b.name()[1]
            || a.name()[0] != b.name()[0]);
    }
}

/// Every method is read back from its own name.
pub proof fn method_name_round_trip(m: HttpMethod)
    ensures
        method_named(m.name()) == Some(m),
{
    assert(lowered(m.name()) =~= m.name());
    method_names_differ(m, HttpMethod::Get);
    method_names_differ(m, HttpMethod::Post);
    method_names_differ(m, HttpMethod::Patch);
    method_names_differ(m, HttpMethod::Put);
    method_names_differ(m, HttpMethod::Head);
    method_names_differ(m, HttpMethod::Delete);
}

/// One configured name with its value: a default query parameter or a
/// default header.
#[derive(Debug, PartialEq, Eq)]
pub struct NameValuePair {
    pub name: String,
    pub value: String,
}

impl View for NameValuePair {
    type V = (Seq<char>, Seq<char>);

    open spec fn view(&self) -> (Seq<char>, Seq<char>) {
        (self.name@, self.value@)
    }
}

impl Clone for NameValuePair {
    fn clone(&self) -> (r: NameValuePair)
        ensures
            r@ == self@,
    {
        NameValuePair { name: self.name.clone(), value: self.value.clone() }
    }
}

/// The pairs of a list, each as its name and value.
pub open spec fn pairs_view(s: Seq<NameValuePair>) -> Seq<(Seq<char>, Seq<char>)> {
    s.map_values(|p: NameValuePair| p@)
}

/// The pairs of an optional list; an absent list has none.
pub open spec fn optional_pairs(list: Option<Vec<NameValuePair>>) -> Seq<(Seq<char>, Seq<char>)> {
    match list {
        Some(v) => pairs_view(v@),
        None => Seq::empty(),
    }
}

/// One route as the configuration file states it.
#[derive(Clone, Debug, PartialEq, Eq)]
pub struct RouteConfig {
    pub path: String,
    pub url: String,
    pub query: Option<Vec<NameValuePair>>,
    pub headers: Option<Vec<NameValuePair>>,
    pub method: Option<HttpMethod>,
    pub target_method: Option<HttpMethod>,
    pub default_body: Option<String>,
}

impl RouteConfig {
    /// The method the route answers on locally: `method`, or GET where the
    /// entry names none.
    pub open spec fn spec_inbound_method(&self) -> HttpMethod {
        match self.method {
            Some(m) => m,
            None => HttpMethod::Get,
        }
    }

    /// The method issued upstream: `target_method` where the entry has one,
    /// else the inbound method.
    pub open spec fn spec_outbound_method(&self) -> HttpMethod {
        match self.target_method {
            Some(m) => m,
            None => self.spec_inbound_method(),
        }
    }

    /// The body sent upstream when the caller sends none: the bytes of
    /// `default_body`, or nothing.
    pub open spec fn spec_default_body(&self) -> Seq<u8> {
        match self.default_body {
            Some(s) => vstd::utf8::encode_utf8(s@),
            None => Seq::empty(),
        }
    }

    #[verifier::when_used_as_spec(spec_inbound_method)]
    pub fn inbound_method(&self) -> (r: HttpMethod)
        ensures
            r == self.spec_inbound_method(),
    {
        match self.method {
            Some(m) => m,
            None => HttpMethod::Get,
        }
    }

    #[verifier::when_used_as_spec(spec_outbound_method)]
    pub fn outbound_method(&self) -> (r: HttpMethod)
        ensures
            r == self.spec_outbound_method(),
    {
        match self.target_method {
            Some(m) => m,
            None => self.inbound_method(),
        }
    }
}

/// The route configuration file: the routes in the order they were written.
#[derive(Clone, Debug, PartialEq, Eq)]
pub struct EndpointConfigFile {
    pub proxy_urls: Vec<RouteConfig>,
}

} // verus!
