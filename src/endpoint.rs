//! The two REST endpoints of the CI server and the request that reaches them.
use vstd::prelude::*;

verus! {

/// Media type that every request asks for.
pub const ACCEPT: &'static str = "application/json; charset=utf-8";

/// Path of the builds collection, up to the root build's identifier.
pub const DEPENDENTS_PREFIX: &'static str = "/app/rest/latest/builds?locator=snapshotDependency:(to:(id:";

/// Rest of the locator: the root build itself is included, the default filter is off.
pub const DEPENDENTS_SUFFIX: &'static str = "),includeInitial:true),defaultFilter:false";

/// Path of one build, up to its identifier.
pub const STATISTICS_PREFIX: &'static str = "/app/rest/latest/builds/id:";

/// Statistics sub-resource of a build.
pub const STATISTICS_SUFFIX: &'static str = "/statistics";

/// The character that writes the decimal digit `d`.
pub open spec fn digit_char(d: nat) -> char {
    if d == 0 { '0' }
    else if d == 1 { '1' }
    else if d == 2 { '2' }
    else if d == 3 { '3' }
    else if d == 4 { '4' }
    else if d == 5 { '5' }
    else if d == 6 { '6' }
    else if d == 7 { '7' }
    else if d == 8 { '8' }
    else { '9' }
}

/// Decimal notation of `n`, without leading zeros.
pub open spec fn decimal(n: nat) -> Seq<char>
    decreases n,
{
    if n < 10 {
        seq![digit_char(n)]
    } else {
        decimal(n / 10).push(digit_char(n % 10))
    }
}

/// URL that lists `build_id` and every build it has a snapshot dependency on.
pub open spec fn dependents_url(base_url: Seq<char>, build_id: Seq<char>) -> Seq<char> {
    base_url + DEPENDENTS_PREFIX@ + build_id + DEPENDENTS_SUFFIX@
}

/// URL of the statistics of the build `id`.
pub open spec fn statistics_url(base_url: Seq<char>, id: u32) -> Seq<char> {
    base_url + STATISTICS_PREFIX@ + decimal(id as nat) + STATISTICS_SUFFIX@
}

fn digit_str(d: u32) -> (r: &'static str)
    requires
        d < 10,
    ensures
        r@ == seq![digit_char(d as nat)],
{
    proof {
        reveal_strlit("0");
        reveal_strlit("1");
        reveal_strlit("2");
        reveal_strlit("3");
        reveal_strlit("4");
        reveal_strlit("5");
        reveal_strlit("6");
        reveal_strlit("7");
        reveal_strlit("8");
        reveal_strlit("9");
    }
    if d == 0 { "0" }
    else if d == 1 { "1" }
    else if d == 2 { "2" }
    else if d == 3 { "3" }
    else if d == 4 { "4" }
    else if d == 5 { "5" }
    else if d == 6 { "6" }
    else if d == 7 { "7" }
    else if d == 8 { "8" }
    else { "9" }
}

/// Writes `n` in decimal.
pub fn decimal_string(n: u32) -> (r: String)
    ensures
        r@ == decimal(n as nat),
    decreases n,
{
    if n < 10 {
        digit_str(n).to_owned()
    } else {
        let mut s = decimal_string(n / 10);
        s.append(digit_str(n % 10));
        s
    }
}

/// URL of the resolver query for `build_id`: the builds whose snapshot
/// dependencies lead to it, the build itself included, whatever their state.
pub fn dependent_builds_url(base_url: &str, build_id: &str) -> (r: String)
    ensures
        r@ == dependents_url(base_url@, build_id@),
{
    let mut url = base_url.to_owned();
    url.append(DEPENDENTS_PREFIX);
    url.append(build_id);
    url.append(DEPENDENTS_SUFFIX);
    url
}

/// URL of the statistics collection of the build `id`.
pub fn build_statistics_url(base_url: &str, id: u32) -> (r: String)
    ensures
        r@ == statistics_url(base_url@, id),
{
    let mut url = base_url.to_owned();
    url.append(STATISTICS_PREFIX);
    let digits = decimal_string(id);
    url.append(digits.as_str());
    url.append(STATISTICS_SUFFIX);
    url
}

/// One authenticated GET: where it goes, the media type it accepts, and the
/// Basic credentials it carries.
pub struct Request {
    pub url: String,
    pub accept: String,
    pub username: String,
    pub password: String,
}

impl Request {
    /// The request asks for `url` with these credentials and accepts JSON in UTF-8.
    pub open spec fn is_get(&self, url: Seq<char>, username: Seq<char>, password: Seq<char>) -> bool {
        &&& self.url@ == url
        &&& self.accept@ == ACCEPT@
        &&& self.username@ == username
        &&& self.password@ == password
    }
}

/// The GET of `url` that both endpoints take.
pub fn get(url: String, username: &str, password: &str) -> (r: Request)
    ensures
        r.is_get(url@, username@, password@),
{
    Request {
        url,
        accept: ACCEPT.to_owned(),
        username: username.to_owned(),
        password: password.to_owned(),
    }
}

} // verus!
