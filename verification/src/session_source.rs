//! Where a session was started from, and which products it belongs to.
use vstd::prelude::*;
use crate::text::{
    all_ws, ascii_lower_chars, chars_eq, chars_of, lower, string_from_chars, trim, trim_bounds,
    lemma_trim_empty_iff_all_ws,
};

verus! {

/// The client that started a session.
#[derive(Debug, PartialEq, Eq)]
pub enum SessionSource {
    Cli,
    VSCode,
    Exec,
    Custom(String),
    Unknown,
}

impl Clone for SessionSource {
    fn clone(&self) -> (r: Self)
        ensures
            r == *self,
    {
        match self {
            SessionSource::Cli => SessionSource::Cli,
            SessionSource::VSCode => SessionSource::VSCode,
            SessionSource::Exec => SessionSource::Exec,
            SessionSource::Custom(c) => SessionSource::Custom(c.clone()),
            SessionSource::Unknown => SessionSource::Unknown,
        }
    }
}

/// Whether two sources are the same, custom names compared by their text.
pub open spec fn same_source(a: SessionSource, b: SessionSource) -> bool {
    match (a, b) {
        (SessionSource::Custom(x), SessionSource::Custom(y)) => x@ == y@,
        (SessionSource::Cli, SessionSource::Cli) => true,
        (SessionSource::VSCode, SessionSource::VSCode) => true,
        (SessionSource::Exec, SessionSource::Exec) => true,
        (SessionSource::Unknown, SessionSource::Unknown) => true,
        _ => false,
    }
}

impl SessionSource {
    /// Whether both are the same source.
    pub fn same_as(&self, other: &SessionSource) -> (r: bool)
        ensures
            r == same_source(*self, *other),
    {
        match (self, other) {
            (SessionSource::Custom(x), SessionSource::Custom(y)) => crate::text::str_eq(
                x.as_str(),
                y.as_str(),
            ),
            (SessionSource::Cli, SessionSource::Cli) => true,
            (SessionSource::VSCode, SessionSource::VSCode) => true,
            (SessionSource::Exec, SessionSource::Exec) => true,
            (SessionSource::Unknown, SessionSource::Unknown) => true,
            _ => false,
        }
    }
}

/// Sessions come from the editor extension unless stated otherwise.
impl Default for SessionSource {
    fn default() -> (r: SessionSource)
        ensures
            r is VSCode,
    {
        SessionSource::VSCode
    }
}

/// The name under which a source is written out.
pub open spec fn spec_source_name(s: SessionSource) -> Seq<char> {
    match s {
        SessionSource::Cli => "cli"@,
        SessionSource::VSCode => "vscode"@,
        SessionSource::Exec => "exec"@,
        SessionSource::Custom(c) => c@,
        SessionSource::Unknown => "unknown"@,
    }
}

/// The source that a non-blank, normalized startup argument names.
pub open spec fn spec_source_of(n: Seq<char>, s: SessionSource) -> bool {
    if n == "cli"@ {
        s is Cli
    } else if n == "vscode"@ {
        s is VSCode
    } else if n == "exec"@ {
        s is Exec
    } else if n == "unknown"@ {
        s is Unknown
    } else {
        s matches SessionSource::Custom(c) && c@ == n
    }
}

/// A product that sessions can be restricted to.
#[derive(Debug, Clone, Copy, PartialEq, Eq, Structural, Hash)]
pub enum Product {
    Chatgpt,
    Codex,
    Atlas,
}

/// The product named by a trimmed, lowercased name.
pub open spec fn spec_product_of(n: Seq<char>) -> Option<Product> {
    if n == "chatgpt"@ {
        Some(Product::Chatgpt)
    } else if n == "codex"@ {
        Some(Product::Codex)
    } else if n == "atlas"@ {
        Some(Product::Atlas)
    } else {
        None
    }
}

/// The product that a source belongs to for restriction checks.
pub open spec fn spec_restriction_product(s: SessionSource) -> Option<Product> {
    match s {
        SessionSource::Custom(c) => spec_product_of(lower(trim(c@))),
        _ => Some(Product::Codex),
    }
}

/// A product passes a restriction list when the list is empty or names it.
pub open spec fn spec_product_allowed(p: Product, products: Seq<Product>) -> bool {
    products.len() == 0 || products.contains(p)
}

/// Trimmed and lowercased characters of `s`.
fn normalized_chars(s: &str) -> (v: Vec<char>)
    ensures
        v@ == lower(trim(s@)),
{
    let cs = chars_of(s);
    let (a, b) = trim_bounds(&cs);
    let mut t: Vec<char> = Vec::new();
    let mut i = a;
    while i < b
        invariant
            a <= i <= b <= cs.len(),
            t@ == cs@.subrange(a as int, i as int),
        decreases b - i,
    {
        t.push(cs[i]);
        assert(cs@.subrange(a as int, i + 1) =~= cs@.subrange(a as int, i as int).push(cs@[i as int]));
        i = i + 1;
    }
    ascii_lower_chars(&t)
}

/// Whether the characters equal the string literal's.
fn is_word(v: &Vec<char>, w: &str) -> (r: bool)
    ensures
        r == (v@ == w@),
{
    let wc = chars_of(w);
    chars_eq(v, &wc)
}

impl SessionSource {
    /// Reads a source from a startup argument: surrounding whitespace is ignored
    /// and case does not matter; an empty argument is refused.
    pub fn from_startup_arg(value: &str) -> (r: Result<SessionSource, &'static str>)
        ensures
            all_ws(value@) ==> (r matches Err(m) && m@ == "session source must not be empty"@),
            !all_ws(value@) ==> (r matches Ok(s) && spec_source_of(lower(trim(value@)), s)),
    {
        proof {
            lemma_trim_empty_iff_all_ws(value@);
        }
        let n = normalized_chars(value);
        if n.len() == 0 {
            return Err("session source must not be empty");
        }
        if is_word(&n, "cli") {
            Ok(SessionSource::Cli)
        } else if is_word(&n, "vscode") {
            Ok(SessionSource::VSCode)
        } else if is_word(&n, "exec") {
            Ok(SessionSource::Exec)
        } else if is_word(&n, "unknown") {
            Ok(SessionSource::Unknown)
        } else {
            let s = string_from_chars(&n, 0, n.len());
            assert(n@.subrange(0, n@.len() as int) =~= n@);
            Ok(SessionSource::Custom(s))
        }
    }

    /// The name under which the source is written out.
    pub fn name(&self) -> (r: String)
        ensures
            r@ == spec_source_name(*self),
    {
        match self {
            SessionSource::Cli => crate::text::copy_str("cli"),
            SessionSource::VSCode => crate::text::copy_str("vscode"),
            SessionSource::Exec => crate::text::copy_str("exec"),
            SessionSource::Custom(source) => source.clone(),
            SessionSource::Unknown => crate::text::copy_str("unknown"),
        }
    }

    /// The product the source belongs to: a custom source names a product or none;
    /// every built-in source belongs to Codex.
    pub fn restriction_product(&self) -> (r: Option<Product>)
        ensures
            r == spec_restriction_product(*self),
    {
        match self {
            SessionSource::Custom(source) => Product::from_session_source_name(source.as_str()),
            _ => Some(Product::Codex),
        }
    }

    /// Whether the source passes a restriction to `products`: always when the
    /// list is empty, otherwise when its product is listed.
    pub fn matches_product_restriction(&self, products: &[Product]) -> (r: bool)
        ensures
            r == (products@.len() == 0 || (spec_restriction_product(*self) matches Some(p)
                && spec_product_allowed(p, products@))),
    {
        if products.len() == 0 {
            return true;
        }
        match self.restriction_product() {
            Some(product) => product.matches_product_restriction(products),
            None => false,
        }
    }
}

impl Product {
    /// The platform name the app uses for the product.
    pub fn to_app_platform(self) -> (r: &'static str)
        ensures
            r@ == match self {
                Product::Chatgpt => "chat"@,
                Product::Codex => "codex"@,
                Product::Atlas => "atlas"@,
            },
    {
        match self {
            Product::Chatgpt => "chat",
            Product::Codex => "codex",
            Product::Atlas => "atlas",
        }
    }

    /// The product a session source name stands for, ignoring surrounding
    /// whitespace and case.
    pub fn from_session_source_name(value: &str) -> (r: Option<Product>)
        ensures
            r == spec_product_of(lower(trim(value@))),
    {
        let n = normalized_chars(value);
        if is_word(&n, "chatgpt") {
            Some(Product::Chatgpt)
        } else if is_word(&n, "codex") {
            Some(Product::Codex)
        } else if is_word(&n, "atlas") {
            Some(Product::Atlas)
        } else {
            None
        }
    }

    /// Whether the product passes a restriction to `products`.
    pub fn matches_product_restriction(&self, products: &[Product]) -> (r: bool)
        ensures
            r == spec_product_allowed(*self, products@),
    {
        if products.len() == 0 {
            return true;
        }
        let mut i: usize = 0;
        while i < products.len()
            invariant
                i <= products@.len(),
                forall|k: int| 0 <= k < i ==> products@[k] != *self,
            decreases products@.len() - i,
        {
            if products[i] == *self {
                assert(products@.contains(*self));
                return true;
            }
            i = i + 1;
        }
        false
    }
}

/// Writing out the source read from a startup argument gives the argument,
/// trimmed and lowercased.
pub proof fn law_source_name_round_trip(n: Seq<char>, s: SessionSource)
    requires
        spec_source_of(n, s),
    ensures
        spec_source_name(s) == n,
{
}

} // verus!
