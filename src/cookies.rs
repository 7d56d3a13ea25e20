use vstd::prelude::*;

verus! {

/// What cookie_parser::parse_set_cookie makes of one `Set-Cookie` header
/// value: the cookie's name and value, or nothing when the header is malformed.
pub uninterp spec fn set_cookie_pair_of(header: Seq<char>) -> Option<(Seq<char>, Seq<char>)>;

/// Relies on cookie_parser::parse_set_cookie: the name/value pair of a
/// well-formed `Set-Cookie` header, `None` where the parser reports an error.
#[verifier::external_body]
fn parse_set_cookie_pair(header: &str) -> (r: Option<(String, String)>)
    ensures
        match r {
            Some(p) => set_cookie_pair_of(header@) == Some((p.0@, p.1@)),
            None => set_cookie_pair_of(header@) is None,
        },
{
    cookie_parser::parse_set_cookie(header).ok().map(|c| (c.pair.name, c.pair.value))
}

/// One cookie: its name and its value.
#[derive(Debug, Clone)]
pub struct CookiePair {
    pub name: String,
    pub value: String,
}

impl View for CookiePair {
    type V = (Seq<char>, Seq<char>);

    open spec fn view(&self) -> (Seq<char>, Seq<char>) {
        (self.name@, self.value@)
    }
}

/// The texts of a sequence of strings.
pub open spec fn texts(v: Seq<String>) -> Seq<Seq<char>> {
    v.map_values(|s: String| s@)
}

/// The views of a sequence of cookies.
pub open spec fn pair_views(v: Seq<CookiePair>) -> Seq<(Seq<char>, Seq<char>)> {
    v.map_values(|c: CookiePair| c@)
}

/// The cookies set by a sequence of `Set-Cookie` headers, in the order the
/// headers came; a malformed header contributes nothing.
pub open spec fn cookie_pairs(headers: Seq<Seq<char>>) -> Seq<(Seq<char>, Seq<char>)>
    decreases headers.len(),
{
    if headers.len() == 0 {
        seq![]
    } else {
        let rest = cookie_pairs(headers.drop_last());
        match set_cookie_pair_of(headers.last()) {
            Some(p) => rest.push(p),
            None => rest,
        }
    }
}

/// The value of the first cookie called `name`, if any.
pub open spec fn first_value(pairs: Seq<(Seq<char>, Seq<char>)>, name: Seq<char>) -> Option<Seq<char>>
    decreases pairs.len(),
{
    if pairs.len() == 0 {
        None
    } else if pairs[0].0 == name {
        Some(pairs[0].1)
    } else {
        first_value(pairs.drop_first(), name)
    }
}

/// `name=value` pairs joined by `"; "`, as a `Cookie` header carries them.
pub open spec fn cookie_header_text(pairs: Seq<(Seq<char>, Seq<char>)>) -> Seq<char>
    decreases pairs.len(),
{
    if pairs.len() == 0 {
        seq![]
    } else if pairs.len() == 1 {
        pairs[0].0 + "="@ + pairs[0].1
    } else {
        cookie_header_text(pairs.drop_last()) + "; "@ + pairs.last().0 + "="@ + pairs.last().1
    }
}

/// Parses every `Set-Cookie` header value of one response, in order,
/// skipping the malformed ones.
pub fn extract_cookies(headers: &Vec<String>) -> (r: Vec<CookiePair>)
    ensures
        pair_views(r@) == cookie_pairs(texts(headers@)),
{
    let mut out: Vec<CookiePair> = Vec::new();
    let mut i: usize = 0;
    while i < headers.len()
        invariant
            i <= headers@.len(),
            pair_views(out@) == cookie_pairs(texts(headers@.subrange(0, i as int))),
        decreases headers@.len() - i,
    {
        let parsed = parse_set_cookie_pair(headers[i].as_str());
        proof {
            let pre = headers@.subrange(0, i as int + 1);
            assert(pre.drop_last() =~= headers@.subrange(0, i as int));
            assert(texts(pre).drop_last() =~= texts(pre.drop_last()));
        }
        match parsed {
            Some(p) => {
                let (name, value) = p;
                out.push(CookiePair { name, value });
                assert(pair_views(out@) =~= pair_views(out@.drop_last()).push(out@.last()@));
            },
            None => {},
        }
        i += 1;
    }
    assert(headers@.subrange(0, headers@.len() as int) =~= headers@);
    out
}

/// The value of the first cookie called `name`.
pub fn find_cookie(cookies: &Vec<CookiePair>, name: &String) -> (r: Option<String>)
    ensures
        match r {
            Some(v) => first_value(pair_views(cookies@), name@) == Some(v@),
            None => first_value(pair_views(cookies@), name@) is None,
        },
{
    let mut i: usize = 0;
    assert(pair_views(cookies@).subrange(0, cookies@.len() as int) =~= pair_views(cookies@));
    while i < cookies.len()
        invariant
            i <= cookies@.len(),
            first_value(pair_views(cookies@), name@)
                == first_value(pair_views(cookies@).subrange(i as int, cookies@.len() as int), name@),
        decreases cookies@.len() - i,
    {
        let ghost rest = pair_views(cookies@).subrange(i as int, cookies@.len() as int);
        assert(rest.drop_first() =~= pair_views(cookies@).subrange(i + 1, cookies@.len() as int));
        if cookies[i].name == *name {
            return Some(cookies[i].value.clone());
        }
        i += 1;
    }
    None
}

/// Joins all cookies into the value of one `Cookie` header.
pub fn cookie_header(cookies: &Vec<CookiePair>) -> (r: String)
    ensures
        r@ == cookie_header_text(pair_views(cookies@)),
{
    let mut out = String::new();
    let mut i: usize = 0;
    while i < cookies.len()
        invariant
            i <= cookies@.len(),
            out@ == cookie_header_text(pair_views(cookies@).subrange(0, i as int)),
        decreases cookies@.len() - i,
    {
        let ghost pre = pair_views(cookies@).subrange(0, i as int + 1);
        assert(pre.drop_last() =~= pair_views(cookies@).subrange(0, i as int));
        if i > 0 {
            out.append("; ");
        }
        out.append(cookies[i].name.as_str());
        out.append("=");
        out.append(cookies[i].value.as_str());
        i += 1;
    }
    assert(pair_views(cookies@).subrange(0, cookies@.len() as int) =~= pair_views(cookies@));
    out
}

/// Running the extraction twice on the same header values yields the same
/// cookies and the same anti-forgery lookup.
pub proof fn extraction_is_deterministic(first: Seq<Seq<char>>, second: Seq<Seq<char>>, name: Seq<char>)
    requires
        first == second,
    ensures
        cookie_pairs(first) == cookie_pairs(second),
        first_value(cookie_pairs(first), name) == first_value(cookie_pairs(second), name),
        cookie_header_text(cookie_pairs(first)) == cookie_header_text(cookie_pairs(second)),
{
}

} // verus!
