use vstd::prelude::*;

verus! {

/// The characters of `s`, in order.
pub fn chars_of(s: &str) -> (cs: Vec<char>)
    ensures
        cs@ == s@,
{
    broadcast use vstd::string::group_string_axioms;

    let mut out: Vec<char> = Vec::new();
    for c in it: s.chars()
        invariant
            it.seq() == s@,
            out@ == it.seq().take(it.index()),
    {
        out.push(c);
        assert(out@ == it.seq().take(it.index() + 1));
    }
    assert(s@.take(s@.len() as int) == s@);
    out
}

/// Builds a `String` from its characters (std's `FromIterator<char>` for
/// `String`); the contract claims the string holds exactly those characters.
#[verifier::external_body]
pub(crate) fn string_of(cs: &Vec<char>) -> (s: String)
    ensures
        s@ == cs@,
{
    cs.iter().collect()
}

/// Whether `p` occurs in `s` starting at index `i`.
pub open spec fn matches_at(s: Seq<char>, p: Seq<char>, i: int) -> bool {
    &&& 0 <= i
    &&& i + p.len() <= s.len()
    &&& forall|k: int| 0 <= k < p.len() ==> #[trigger] s[i + k] == p[k]
}

/// The first index at or after `start` where `p` occurs in `s`, as `str::find`
/// reports it on the rest of the text.
pub open spec fn find_from(s: Seq<char>, p: Seq<char>, start: int) -> Option<int>
    decreases s.len() - start,
{
    if start + p.len() > s.len() {
        None
    } else if matches_at(s, p, start) {
        Some(start)
    } else {
        find_from(s, p, start + 1)
    }
}

/// What `find_from` returns is a match, none comes earlier (from `start`),
/// and when it returns nothing there is no match from `start` on.
pub proof fn lemma_find_from(s: Seq<char>, p: Seq<char>, start: int)
    requires
        0 <= start,
    ensures
        match find_from(s, p, start) {
            Some(i) => start <= i && matches_at(s, p, i) && forall|j: int|
                start <= j < i ==> !#[trigger] matches_at(s, p, j),
            None => forall|j: int| start <= j ==> !#[trigger] matches_at(s, p, j),
        },
    decreases s.len() - start,
{
    if start + p.len() > s.len() {
    } else if matches_at(s, p, start) {
    } else {
        lemma_find_from(s, p, start + 1);
    }
}

/// Whether `p` occurs in `v` at `i`.
fn matches_at_exec(v: &Vec<char>, p: &Vec<char>, i: usize) -> (m: bool)
    requires
        i + p@.len() <= v@.len(),
    ensures
        m == matches_at(v@, p@, i as int),
{
    let n = v.len();
    let mut k: usize = 0;
    while k < p.len()
        invariant
            n == v@.len(),
            i + p@.len() <= v@.len(),
            k <= p@.len(),
            forall|j: int| 0 <= j < k ==> #[trigger] v@[i + j] == p@[j],
        decreases p.len() - k,
    {
        assert(i + k < v@.len());
        if v[i + k] != p[k] {
            assert(v@[i + k as int] != p@[k as int]);
            return false;
        }
        k = k + 1;
    }
    true
}

/// The first index at or after `start` where `p` occurs in `v`.
pub fn find_in(v: &Vec<char>, p: &Vec<char>, start: usize) -> (r: Option<usize>)
    ensures
        match r {
            Some(i) => find_from(v@, p@, start as int) == Some(i as int),
            None => find_from(v@, p@, start as int) == None::<int>,
        },
{
    if p.len() > v.len() {
        return None;
    }
    let last = v.len() - p.len();
    let mut i = start;
    while i <= last
        invariant
            last == v@.len() - p@.len(),
            start <= i,
            find_from(v@, p@, start as int) == find_from(v@, p@, i as int),
        decreases last + 1 - i,
    {
        if matches_at_exec(v, p, i) {
            return Some(i);
        }
        if i == last {
            assert(find_from(v@, p@, i + 1) == None::<int>);
            return None;
        }
        i = i + 1;
    }
    None
}

/// The string value of `key` in a JSON text, read the way a quick scan reads
/// it: after the first `"key"` (searching from `from`), skip to the first
/// colon, then take what lies between the next two double quotes. Escapes are
/// not interpreted.
pub open spec fn json_string_at(body: Seq<char>, key: Seq<char>, from: int) -> Option<Seq<char>> {
    let pat = seq!['"'] + key + seq!['"'];
    match find_from(body, pat, from) {
        None => None,
        Some(i) => match find_from(body, seq![':'], i + pat.len()) {
            None => None,
            Some(j) => match find_from(body, seq!['"'], j + 1) {
                None => None,
                Some(k) => match find_from(body, seq!['"'], k + 1) {
                    None => None,
                    Some(m) => Some(body.subrange(k + 1, m)),
                },
            },
        },
    }
}

/// The scan of `json_string_at` over the whole text.
pub open spec fn json_string_spec(body: Seq<char>, key: Seq<char>) -> Option<Seq<char>> {
    json_string_at(body, key, 0)
}

/// The first match of `p` at or after `start` is at `at` when `p` occurs at
/// `at` and nowhere in between.
proof fn lemma_find_first_at(s: Seq<char>, p: Seq<char>, start: int, at: int)
    requires
        0 <= start <= at,
        matches_at(s, p, at),
        forall|j: int| start <= j < at ==> !#[trigger] matches_at(s, p, j),
    ensures
        find_from(s, p, start) == Some(at),
    decreases at - start,
{
    if start < at {
        assert(!matches_at(s, p, start));
        lemma_find_first_at(s, p, start + 1, at);
    }
}

/// A quoted value is read whole: in a text that starts with `lead` (holding
/// no double quote), then `"key": "value"`, then anything, the string value
/// of `key` is `value`, spaces and all, as long as it holds no double quote.
pub proof fn lemma_json_reads_quoted_value(
    lead: Seq<char>,
    key: Seq<char>,
    value: Seq<char>,
    rest: Seq<char>,
)
    requires
        forall|i: int| 0 <= i < lead.len() ==> #[trigger] lead[i] != '"',
        forall|i: int| 0 <= i < value.len() ==> #[trigger] value[i] != '"',
    ensures
        json_string_spec(
            lead + seq!['"'] + key + seq!['"', ':', ' ', '"'] + value + seq!['"'] + rest,
            key,
        ) == Some(value),
{
    lemma_json_at_quoted_value(lead, key, value, rest, 0);
}

/// The scan from any point of `lead` reads the value whole.
proof fn lemma_json_at_quoted_value(
    lead: Seq<char>,
    key: Seq<char>,
    value: Seq<char>,
    rest: Seq<char>,
    from: int,
)
    requires
        0 <= from <= lead.len(),
        forall|i: int| 0 <= i < lead.len() ==> #[trigger] lead[i] != '"',
        forall|i: int| 0 <= i < value.len() ==> #[trigger] value[i] != '"',
    ensures
        json_string_at(
            lead + seq!['"'] + key + seq!['"', ':', ' ', '"'] + value + seq!['"'] + rest,
            key,
            from,
        ) == Some(value),
{
    let body = lead + seq!['"'] + key + seq!['"', ':', ' ', '"'] + value + seq!['"'] + rest;
    let pat = seq!['"'] + key + seq!['"'];
    let l = lead.len() as int;
    let kl = key.len() as int;
    let vl = value.len() as int;
    assert(body.len() == l + kl + 5 + vl + 1 + rest.len());
    assert forall|k: int| 0 <= k < pat.len() implies #[trigger] body[l + k] == pat[k] by {
        if k == 0 {
        } else if k <= kl {
            assert(body[l + k] == key[k - 1]);
        } else {
        }
    }
    assert(matches_at(body, pat, l));
    assert forall|j: int| 0 <= j < l implies !#[trigger] matches_at(body, pat, j) by {
        assert(body[j + 0] == lead[j]);
    }
    lemma_find_first_at(body, pat, from, l);
    let colon = l + kl + 2;
    assert(body[colon] == ':');
    assert(matches_at(body, seq![':'], colon));
    lemma_find_first_at(body, seq![':'], colon, colon);
    let open = l + kl + 4;
    assert(body[colon + 1] == ' ');
    assert(body[open] == '"');
    assert(!matches_at(body, seq!['"'], colon + 1)) by {
        assert(body[colon + 1 + 0] == ' ');
    }
    assert(matches_at(body, seq!['"'], open));
    assert forall|j: int| colon + 1 <= j < open implies !#[trigger] matches_at(body, seq!['"'], j) by {
        assert(j == colon + 1);
    }
    lemma_find_first_at(body, seq!['"'], colon + 1, open);
    let close = open + 1 + vl;
    assert(body[close] == '"');
    assert(matches_at(body, seq!['"'], close));
    assert forall|j: int| open + 1 <= j < close implies !#[trigger] matches_at(body, seq!['"'], j) by {
        assert(body[j + 0] == value[j - open - 1]);
    }
    lemma_find_first_at(body, seq!['"'], open + 1, close);
    assert(body.subrange(open + 1, close) =~= value);
}


/// Scans `body` from `from` for the string value of `key`.
fn json_string_in(body: &Vec<char>, key: &Vec<char>, from: usize) -> (r: Option<Vec<char>>)
    ensures
        match r {
            Some(v) => json_string_at(body@, key@, from as int) == Some(v@),
            None => json_string_at(body@, key@, from as int) == None::<Seq<char>>,
        },
{
    let blen = body.len();
    let mut pat: Vec<char> = Vec::new();
    pat.push('"');
    let mut t: usize = 0;
    while t < key.len()
        invariant
            t <= key@.len(),
            pat@ == seq!['"'] + key@.take(t as int),
        decreases key.len() - t,
    {
        pat.push(key[t]);
        t = t + 1;
        assert(pat@ == seq!['"'] + key@.take(t as int));
    }
    pat.push('"');
    assert(key@.take(key@.len() as int) == key@);
    assert(pat@ == seq!['"'] + key@ + seq!['"']);
    let colon = vec![':'];
    let quote = vec!['"'];
    assert(colon@ == seq![':']);
    assert(quote@ == seq!['"']);
    let i = match find_in(body, &pat, from) {
        Some(i) => i,
        None => return None,
    };
    proof {
        lemma_find_from(body@, pat@, from as int);
        assert(matches_at(body@, pat@, i as int));
    }
    let j = match find_in(body, &colon, i + pat.len()) {
        Some(j) => j,
        None => return None,
    };
    proof {
        lemma_find_from(body@, colon@, i + pat@.len());
        assert(matches_at(body@, colon@, j as int));
    }
    let k = match find_in(body, &quote, j + 1) {
        Some(k) => k,
        None => return None,
    };
    proof {
        lemma_find_from(body@, quote@, j + 1);
        assert(matches_at(body@, quote@, k as int));
    }
    let m = match find_in(body, &quote, k + 1) {
        Some(m) => m,
        None => return None,
    };
    proof {
        lemma_find_from(body@, quote@, k + 1);
        assert(matches_at(body@, quote@, m as int));
    }
    let mut out: Vec<char> = Vec::new();
    let mut q = k + 1;
    while q < m
        invariant
            k + 1 <= q <= m,
            m <= body@.len(),
            out@ == body@.subrange(k + 1, q as int),
        decreases m - q,
    {
        out.push(body[q]);
        q = q + 1;
        assert(out@ == body@.subrange(k + 1, q as int));
    }
    Some(out)
}

/// The string value of `key` in the JSON text `body`, as a quick scan reads
/// it (see `json_string_spec`); `None` when the key, the colon or either
/// quote is missing.
pub fn json_string(body: &str, key: &str) -> (r: Option<String>)
    ensures
        match r {
            Some(v) => json_string_spec(body@, key@) == Some(v@),
            None => json_string_spec(body@, key@) == None::<Seq<char>>,
        },
{
    let b = chars_of(body);
    let k = chars_of(key);
    match json_string_in(&b, &k, 0) {
        Some(v) => Some(string_of(&v)),
        None => None,
    }
}

/// Unicode lowercase of a text, as std's `str::to_lowercase` computes it from
/// the Unicode tables: a fixed function of the text.
pub uninterp spec fn lowercase_of(s: Seq<char>) -> Seq<char>;

/// std's `str::to_lowercase`; the contract claims only that the result is the
/// lowercase of the argument (`lowercase_of`), not what the Unicode mapping is.
#[verifier::external_body]
fn to_lowercase(s: &str) -> (r: String)
    ensures
        r@ == lowercase_of(s@),
{
    s.to_lowercase()
}

/// Whether `s` ends with `suffix`.
pub open spec fn ends_with(s: Seq<char>, suffix: Seq<char>) -> bool {
    suffix.len() <= s.len() && s.subrange(s.len() - suffix.len(), s.len() as int) == suffix
}

/// A download URL is the installer when its lowercase ends in ".exe".
pub open spec fn is_installer_url(url: Seq<char>) -> bool {
    ends_with(lowercase_of(url), seq!['.', 'e', 'x', 'e'])
}

/// Name of the JSON field holding a release asset's download URL.
pub open spec fn asset_field() -> Seq<char> {
    "browser_download_url"@
}

/// The field name in quotes, as it is searched for.
pub open spec fn asset_key() -> Seq<char> {
    seq!['"'] + asset_field() + seq!['"']
}

/// The first release asset, scanning from `start`, whose download URL is the
/// installer: each occurrence of the quoted field name is read with the JSON
/// scan, and the scan moves past it when the URL is missing or not an `.exe`.
pub open spec fn exe_asset_from(body: Seq<char>, start: nat) -> Option<Seq<char>>
    decreases body.len() - start,
{
    match find_from(body, asset_key(), start as int) {
        None => None,
        Some(abs) => {
            proof {
                lemma_find_from(body, asset_key(), start as int);
            }
            match json_string_at(body, asset_field(), abs) {
                Some(u) => if is_installer_url(u) {
                    Some(u)
                } else {
                    exe_asset_from(body, (abs + asset_key().len()) as nat)
                },
                None => exe_asset_from(body, (abs + asset_key().len()) as nat),
            }
        },
    }
}

/// The installer URL among the assets of a release description.
pub open spec fn exe_asset_spec(body: Seq<char>) -> Option<Seq<char>> {
    exe_asset_from(body, 0)
}

/// Whatever the scan finds is an installer: a download URL whose lowercase
/// ends in ".exe".
proof fn lemma_exe_asset_from_is_installer(body: Seq<char>, start: nat)
    ensures
        exe_asset_from(body, start) matches Some(u) ==> is_installer_url(u),
    decreases body.len() - start,
{
    match find_from(body, asset_key(), start as int) {
        None => {},
        Some(abs) => {
            lemma_find_from(body, asset_key(), start as int);
            lemma_exe_asset_from_is_installer(body, (abs + asset_key().len()) as nat);
        },
    }
}

/// The installer found in a release description is always an installer URL.
pub proof fn lemma_found_installer_is_exe(body: Seq<char>)
    ensures
        exe_asset_spec(body) matches Some(v) ==> is_installer_url(v),
{
    lemma_exe_asset_from_is_installer(body, 0);
}

/// When the first asset of a description `..."browser_download_url": "<u>"...`
/// (nothing quoted before it) is an installer URL holding no double quote, it
/// is the installer found, read whole.
pub proof fn lemma_installer_found(lead: Seq<char>, u: Seq<char>, rest: Seq<char>)
    requires
        forall|i: int| 0 <= i < lead.len() ==> #[trigger] lead[i] != '"',
        forall|i: int| 0 <= i < u.len() ==> #[trigger] u[i] != '"',
        is_installer_url(u),
    ensures
        exe_asset_spec(
            lead + seq!['"'] + "browser_download_url"@ + seq!['"', ':', ' ', '"'] + u + seq!['"']
                + rest,
        ) == Some(u),
{
    let key = "browser_download_url"@;
    let b = lead + seq!['"'] + key + seq!['"', ':', ' ', '"'] + u + seq!['"'] + rest;
    let l = lead.len() as int;
    let pat = asset_key();
    assert(pat == seq!['"'] + key + seq!['"']);
    assert forall|k: int| 0 <= k < pat.len() implies #[trigger] b[l + k] == pat[k] by {
        if k == 0 {
        } else if k <= key.len() {
            assert(b[l + k] == key[k - 1]);
        } else {
        }
    }
    assert(matches_at(b, pat, l));
    assert forall|j: int| 0 <= j < l implies !#[trigger] matches_at(b, pat, j) by {
        assert(b[j + 0] == lead[j]);
    }
    lemma_find_first_at(b, pat, 0, l);
    lemma_json_at_quoted_value(lead, key, u, rest, l);
}

/// Whether a (lowercased) URL ends in ".exe".
pub fn ends_with_exe(lower: &str) -> (b: bool)
    ensures
        b == ends_with(lower@, seq!['.', 'e', 'x', 'e']),
        b == ends_with(lower@, ".exe"@),
{
    proof {
        reveal_strlit(".exe");
        assert(".exe"@ =~= seq!['.', 'e', 'x', 'e']);
    }
    let l = chars_of(lower);
    let n = l.len();
    if n < 4 {
        return false;
    }
    let r = l[n - 4] == '.' && l[n - 3] == 'e' && l[n - 2] == 'x' && l[n - 1] == 'e';
    let ghost suffix = seq!['.', 'e', 'x', 'e'];
    assert(r == (l@.subrange(n - 4, n as int) == suffix)) by {
        if l@.subrange(n - 4, n as int) == suffix {
            assert(l@.subrange(n - 4, n as int)[0] == l@[n - 4]);
            assert(l@.subrange(n - 4, n as int)[1] == l@[n - 3]);
            assert(l@.subrange(n - 4, n as int)[2] == l@[n - 2]);
            assert(l@.subrange(n - 4, n as int)[3] == l@[n - 1]);
        }
        if r {
            assert(l@.subrange(n - 4, n as int) =~= suffix);
        }
    }
    r
}

/// Whether the URL `u` names an installer.
fn is_installer(u: &Vec<char>) -> (b: bool)
    ensures
        b == is_installer_url(u@),
{
    let s = string_of(u);
    let lower = to_lowercase(s.as_str());
    ends_with_exe(lower.as_str())
}

/// The first download URL in a release description (JSON from the releases
/// API) that ends in ".exe", ignoring case; `None` when there is none.
pub fn find_exe_asset(body: &str) -> (r: Option<String>)
    ensures
        match r {
            Some(u) => exe_asset_spec(body@) == Some(u@),
            None => exe_asset_spec(body@) == None::<Seq<char>>,
        },
{
    let b = chars_of(body);
    let field = chars_of("browser_download_url");
    let mut key: Vec<char> = Vec::new();
    key.push('"');
    let mut t: usize = 0;
    while t < field.len()
        invariant
            t <= field@.len(),
            key@ == seq!['"'] + field@.take(t as int),
        decreases field.len() - t,
    {
        key.push(field[t]);
        t = t + 1;
        assert(key@ == seq!['"'] + field@.take(t as int));
    }
    key.push('"');
    assert(field@.take(field@.len() as int) == field@);
    assert(key@ == asset_key());
    let blen = b.len();
    let mut start: usize = 0;
    loop
        invariant
            blen == b@.len(),
            b@ == body@,
            field@ == asset_field(),
            key@ == asset_key(),
            exe_asset_spec(body@) == exe_asset_from(body@, start as nat),
        decreases blen - start,
    {
        let abs = match find_in(&b, &key, start) {
            Some(abs) => abs,
            None => return None,
        };
        proof {
            lemma_find_from(b@, key@, start as int);
            assert(matches_at(b@, key@, abs as int));
        }
        match json_string_in(&b, &field, abs) {
            Some(u) => {
                if is_installer(&u) {
                    return Some(string_of(&u));
                }
            },
            None => {},
        }
        start = abs + key.len();
    }
}

/// Whether `c` has the Unicode `White_Space` property, which is what
/// `char::is_whitespace` tests and `str::trim` strips.
pub open spec fn is_whitespace_spec(c: char) -> bool {
    let v = c as u32;
    (0x09 <= v <= 0x0D) || v == 0x20 || v == 0x85 || v == 0xA0 || v == 0x1680 || (0x2000 <= v
        <= 0x200A) || v == 0x2028 || v == 0x2029 || v == 0x202F || v == 0x205F || v == 0x3000
}

/// Tests a character for Unicode white space.
pub fn is_whitespace(c: char) -> (b: bool)
    ensures
        b == is_whitespace_spec(c),
{
    let v = c as u32;
    (0x09 <= v && v <= 0x0D) || v == 0x20 || v == 0x85 || v == 0xA0 || v == 0x1680 || (0x2000
        <= v && v <= 0x200A) || v == 0x2028 || v == 0x2029 || v == 0x202F || v == 0x205F || v
        == 0x3000
}

/// Number of white-space characters at the start of `s`.
pub open spec fn leading_ws(s: Seq<char>) -> int
    decreases s.len(),
{
    if s.len() == 0 {
        0
    } else if is_whitespace_spec(s[0]) {
        1 + leading_ws(s.drop_first())
    } else {
        0
    }
}

/// Number of white-space characters at the end of `s`.
pub open spec fn trailing_ws(s: Seq<char>) -> int
    decreases s.len(),
{
    if s.len() == 0 {
        0
    } else if is_whitespace_spec(s.last()) {
        1 + trailing_ws(s.drop_last())
    } else {
        0
    }
}

/// `s` without white space at either end.
pub open spec fn trim_spec(s: Seq<char>) -> Seq<char> {
    let a = s.skip(leading_ws(s));
    a.take(a.len() - trailing_ws(a))
}

proof fn lemma_leading_ws(s: Seq<char>)
    ensures
        0 <= leading_ws(s) <= s.len(),
        forall|i: int| 0 <= i < leading_ws(s) ==> is_whitespace_spec(#[trigger] s[i]),
        leading_ws(s) < s.len() ==> !is_whitespace_spec(s[leading_ws(s)]),
    decreases s.len(),
{
    if s.len() > 0 && is_whitespace_spec(s[0]) {
        lemma_leading_ws(s.drop_first());
        assert forall|i: int| 0 <= i < leading_ws(s) implies is_whitespace_spec(#[trigger] s[i]) by {
            if i > 0 {
                assert(s[i] == s.drop_first()[i - 1]);
            }
        }
    }
}

proof fn lemma_trailing_ws(s: Seq<char>)
    ensures
        0 <= trailing_ws(s) <= s.len(),
        forall|i: int|
            s.len() - trailing_ws(s) <= i < s.len() ==> is_whitespace_spec(#[trigger] s[i]),
        trailing_ws(s) < s.len() ==> !is_whitespace_spec(s[s.len() - trailing_ws(s) - 1]),
    decreases s.len(),
{
    if s.len() > 0 && is_whitespace_spec(s.last()) {
        lemma_trailing_ws(s.drop_last());
        assert forall|i: int| s.len() - trailing_ws(s) <= i < s.len() implies is_whitespace_spec(
            #[trigger] s[i],
        ) by {
            if i < s.len() - 1 {
                assert(s[i] == s.drop_last()[i]);
            }
        }
    }
}

/// The bounds of `v[start..end]` with white space trimmed from both ends.
fn trim_range(v: &Vec<char>, start: usize, end: usize) -> (r: (usize, usize))
    requires
        start <= end <= v@.len(),
    ensures
        start <= r.0 <= r.1 <= end,
        v@.subrange(r.0 as int, r.1 as int) == trim_spec(v@.subrange(start as int, end as int)),
{
    let ghost sub = v@.subrange(start as int, end as int);
    let mut lo = start;
    while lo < end && is_whitespace(v[lo])
        invariant
            start <= lo <= end <= v@.len(),
            sub == v@.subrange(start as int, end as int),
            forall|i: int| start <= i < lo ==> is_whitespace_spec(#[trigger] v@[i]),
        decreases end - lo,
    {
        lo = lo + 1;
    }
    proof {
        lemma_leading_ws(sub);
        let k = leading_ws(sub);
        if k < lo - start {
            assert(sub[k] == v@[start + k]);
        } else if k > lo - start {
            assert(sub[lo - start] == v@[lo as int]);
            assert(is_whitespace_spec(sub[lo - start]));
        }
        assert(k == lo - start);
    }
    let ghost a = sub.skip(leading_ws(sub));
    assert(a == v@.subrange(lo as int, end as int));
    let mut hi = end;
    while hi > lo && is_whitespace(v[hi - 1])
        invariant
            start <= lo <= hi <= end <= v@.len(),
            a == v@.subrange(lo as int, end as int),
            forall|i: int| hi <= i < end ==> is_whitespace_spec(#[trigger] v@[i]),
        decreases hi - lo,
    {
        hi = hi - 1;
    }
    proof {
        lemma_trailing_ws(a);
        let k = trailing_ws(a);
        let n = a.len();
        if k < end - hi {
            assert(a[n - k - 1] == v@[lo + n - k - 1]);
        } else if k > end - hi {
            assert(a[hi - lo - 1] == v@[hi - 1]);
            assert(is_whitespace_spec(a[hi - lo - 1]));
        }
        assert(k == end - hi);
        assert(a.take(a.len() - k) == v@.subrange(lo as int, hi as int));
    }
    (lo, hi)
}

/// Whether `c` separates the numbers of a version text.
pub open spec fn is_version_sep(c: char) -> bool {
    c == '.' || c == '-' || c == '+'
}

/// Index of the first separator in `s`, or its length when there is none.
pub open spec fn sep_index(s: Seq<char>) -> int
    decreases s.len(),
{
    if s.len() == 0 {
        0
    } else if is_version_sep(s[0]) {
        0
    } else {
        1 + sep_index(s.drop_first())
    }
}

proof fn lemma_sep_index(s: Seq<char>)
    ensures
        0 <= sep_index(s) <= s.len(),
        forall|i: int| 0 <= i < sep_index(s) ==> !is_version_sep(#[trigger] s[i]),
        sep_index(s) < s.len() ==> is_version_sep(s[sep_index(s)]),
    decreases s.len(),
{
    if s.len() > 0 && !is_version_sep(s[0]) {
        lemma_sep_index(s.drop_first());
        assert forall|i: int| 0 <= i < sep_index(s) implies !is_version_sep(#[trigger] s[i]) by {
            if i > 0 {
                assert(s[i] == s.drop_first()[i - 1]);
            }
        }
    }
}

/// Field number `n` of `s` split at separators, as `str::split` yields them;
/// `None` past the last field.
pub open spec fn nth_field(s: Seq<char>, n: nat) -> Option<Seq<char>>
    decreases n,
{
    let k = sep_index(s);
    if n == 0 {
        Some(s.take(k))
    } else if k < s.len() {
        nth_field(s.skip(k + 1), (n - 1) as nat)
    } else {
        None
    }
}

/// Whether every character of `d` is an ASCII digit.
pub open spec fn all_digits(d: Seq<char>) -> bool {
    forall|i: int| 0 <= i < d.len() ==> '0' <= #[trigger] d[i] <= '9'
}

/// The number a string of decimal digits denotes.
pub open spec fn digits_value(d: Seq<char>) -> int
    decreases d.len(),
{
    if d.len() == 0 {
        0
    } else {
        digits_value(d.drop_last()) * 10 + (d.last() as int - '0' as int)
    }
}

/// What `str::parse::<u32>` accepts: an optional `+`, then at least one ASCII
/// digit and nothing else, denoting a value that fits in a `u32`.
pub open spec fn parse_u32_spec(s: Seq<char>) -> Option<u32> {
    let d = if s.len() > 0 && s[0] == '+' {
        s.drop_first()
    } else {
        s
    };
    if d.len() > 0 && all_digits(d) && digits_value(d) <= u32::MAX {
        Some(digits_value(d) as u32)
    } else {
        None
    }
}

proof fn lemma_digits_value_grows(d: Seq<char>, i: int, j: int)
    requires
        0 <= i <= j <= d.len(),
        all_digits(d),
    ensures
        digits_value(d.take(i)) <= digits_value(d.take(j)),
        digits_value(d.take(j)) >= 0,
    decreases j,
{
    if j > 0 {
        assert(d.take(j).drop_last() == d.take(j - 1));
        let i2 = if i < j {
            i
        } else {
            j - 1
        };
        lemma_digits_value_grows(d, i2, j - 1);
        assert('0' <= d[j - 1] <= '9');
        assert(d.take(j).last() == d[j - 1]);
    }
}

/// Parses `v[lo..hi]` as `str::parse::<u32>` does.
fn parse_u32_range(v: &Vec<char>, lo: usize, hi: usize) -> (r: Option<u32>)
    requires
        lo <= hi <= v@.len(),
    ensures
        r == parse_u32_spec(v@.subrange(lo as int, hi as int)),
{
    let ghost s = v@.subrange(lo as int, hi as int);
    let mut i = lo;
    if i < hi && v[i] == '+' {
        i = i + 1;
    }
    let ghost d = v@.subrange(i as int, hi as int);
    assert(d == (if s.len() > 0 && s[0] == '+' {
        s.drop_first()
    } else {
        s
    }));
    if i == hi {
        return None;
    }
    let start = i;
    let mut acc: u64 = 0;
    while i < hi
        invariant
            start <= i <= hi <= v@.len(),
            start < hi,
            s == v@.subrange(lo as int, hi as int),
            d == (if s.len() > 0 && s[0] == '+' {
                s.drop_first()
            } else {
                s
            }),
            d == v@.subrange(start as int, hi as int),
            all_digits(d.take(i - start)),
            acc == digits_value(d.take(i - start)),
            acc <= u32::MAX,
        decreases hi - i,
    {
        let c = v[i];
        if c < '0' || c > '9' {
            assert(d[i - start] == c);
            assert(!all_digits(d));
            return None;
        }
        let digit = (c as u32 - '0' as u32) as u64;
        let next = acc * 10 + digit;
        proof {
            assert(d.take(i - start + 1).drop_last() == d.take(i - start));
            assert(d.take(i - start + 1).last() == c);
            assert(all_digits(d.take(i - start + 1)));
        }
        assert(next == digits_value(d.take(i - start + 1)));
        i = i + 1;
        if next > u32::MAX as u64 {
            proof {
                if all_digits(d) {
                    lemma_digits_value_grows(d, i - start, d.len() as int);
                    assert(d.take(d.len() as int) == d);
                }
            }
            return None;
        }
        acc = next;
    }
    assert(d.take(d.len() as int) == d);
    Some(acc as u32)
}

/// The number of a version field: the field trimmed and parsed, 0 when it is
/// missing or not a number.
pub open spec fn field_number(field: Option<Seq<char>>) -> u32 {
    match field {
        Some(f) => match parse_u32_spec(trim_spec(f)) {
            Some(n) => n,
            None => 0,
        },
        None => 0,
    }
}

/// `s` without the `v` characters it starts with.
pub open spec fn strip_v(s: Seq<char>) -> Seq<char>
    decreases s.len(),
{
    if s.len() > 0 && s[0] == 'v' {
        strip_v(s.drop_first())
    } else {
        s
    }
}

/// The (major, minor, patch) numbers of a version text such as "v1.2.3":
/// trimmed, any leading `v`s removed, split at `.`, `-` or `+`, the first
/// three fields read as numbers (0 when missing or not a number).
pub open spec fn ver_tuple_spec(s: Seq<char>) -> (u32, u32, u32) {
    let t = strip_v(trim_spec(s));
    (field_number(nth_field(t, 0)), field_number(nth_field(t, 1)), field_number(nth_field(t, 2)))
}

/// Reads the field of `v[pos..hi]` that starts at `pos`: its number, and where
/// the next field starts when there is one.
fn next_field(v: &Vec<char>, pos: usize, hi: usize) -> (r: (u32, Option<usize>))
    requires
        pos <= hi <= v@.len(),
    ensures
        ({
            let rest = v@.subrange(pos as int, hi as int);
            &&& r.0 == field_number(nth_field(rest, 0))
            &&& match r.1 {
                Some(q) => sep_index(rest) < rest.len() && q == pos + sep_index(rest) + 1 && q
                    <= hi,
                None => sep_index(rest) == rest.len(),
            }
        }),
{
    let ghost rest = v@.subrange(pos as int, hi as int);
    let mut e = pos;
    while e < hi && !(v[e] == '.' || v[e] == '-' || v[e] == '+')
        invariant
            pos <= e <= hi <= v@.len(),
            rest == v@.subrange(pos as int, hi as int),
            forall|i: int| pos <= i < e ==> !is_version_sep(#[trigger] v@[i]),
        decreases hi - e,
    {
        e = e + 1;
    }
    proof {
        lemma_sep_index(rest);
        let k = sep_index(rest);
        if k < e - pos {
            assert(rest[k] == v@[pos + k]);
        } else if k > e - pos {
            assert(rest[e - pos] == v@[e as int]);
        }
        assert(k == e - pos);
        assert(rest.take(k) == v@.subrange(pos as int, e as int));
    }
    let (lo, fhi) = trim_range(v, pos, e);
    let n = match parse_u32_range(v, lo, fhi) {
        Some(n) => n,
        None => 0,
    };
    if e < hi {
        (n, Some(e + 1))
    } else {
        (n, None)
    }
}

/// Parses a release tag or version text into (major, minor, patch) for
/// comparison.
pub fn ver_tuple(s: &str) -> (t: (u32, u32, u32))
    ensures
        t == ver_tuple_spec(s@),
{
    let v = chars_of(s);
    let (lo, hi) = trim_range(&v, 0, v.len());
    assert(v@.subrange(0, v@.len() as int) == s@);
    let mut p = lo;
    while p < hi && v[p] == 'v'
        invariant
            lo <= p <= hi <= v@.len(),
            strip_v(v@.subrange(lo as int, hi as int)) == strip_v(v@.subrange(p as int, hi as int)),
        decreases hi - p,
    {
        assert(v@.subrange(p as int, hi as int).drop_first() == v@.subrange(p + 1, hi as int));
        p = p + 1;
    }
    let ghost t = v@.subrange(p as int, hi as int);
    assert(strip_v(t) == t);
    let (a, next) = next_field(&v, p, hi);
    let (b, c) = match next {
        None => {
            assert(nth_field(t, 1) == None::<Seq<char>>);
            assert(nth_field(t, 2) == None::<Seq<char>>);
            (0, 0)
        },
        Some(q1) => {
            let ghost t1 = v@.subrange(q1 as int, hi as int);
            assert(q1 == p + sep_index(t) + 1);
            assert(q1 <= hi);
            proof {
                lemma_sep_index(t);
            }
            assert(t.skip(sep_index(t) + 1) =~= t1);
            assert(nth_field(t, 1) == nth_field(t1, 0));
            assert(nth_field(t, 2) == nth_field(t1, 1));
            let (b, next2) = next_field(&v, q1, hi);
            match next2 {
                None => {
                    assert(nth_field(t1, 1) == None::<Seq<char>>);
                    (b, 0)
                },
                Some(q2) => {
                    let ghost t2 = v@.subrange(q2 as int, hi as int);
                    proof {
                        lemma_sep_index(t1);
                    }
                    assert(t1.skip(sep_index(t1) + 1) =~= t2);
                    assert(nth_field(t1, 1) == nth_field(t2, 0));
                    let (c, _) = next_field(&v, q2, hi);
                    (b, c)
                },
            }
        },
    };
    (a, b, c)
}

/// The decimal digits of `n`.
pub open spec fn decimal_spec(n: u64) -> Seq<char>
    decreases n,
{
    if n < 10 {
        seq![('0' as u32 + n) as char]
    } else {
        decimal_spec(n / 10) + seq![('0' as u32 + n % 10) as char]
    }
}

/// The decimal text of `n` is a non-empty string of digits denoting `n`.
pub proof fn lemma_decimal(n: u64)
    ensures
        decimal_spec(n).len() >= 1,
        all_digits(decimal_spec(n)),
        digits_value(decimal_spec(n)) == n,
    decreases n,
{
    let d = decimal_spec(n);
    if n < 10 {
        assert(d.drop_last() =~= Seq::<char>::empty());
        assert((('0' as u32 + n) as char) as int == '0' as int + n);
        assert(digits_value(d.drop_last()) == 0);
    } else {
        lemma_decimal(n / 10);
        let q = decimal_spec(n / 10);
        assert(d.drop_last() =~= q);
        let r = n % 10;
        assert(d.last() == ('0' as u32 + r) as char);
        assert((('0' as u32 + r) as char) as int == '0' as int + r);
        assert((n / 10) * 10 + r == n);
        assert(digits_value(d) == digits_value(d.drop_last()) * 10 + (d.last() as int - '0' as int));
        assert(digits_value(d.drop_last()) == n / 10);
        assert forall|i: int| 0 <= i < d.len() implies '0' <= #[trigger] d[i] <= '9' by {
            if i < q.len() {
                assert(d[i] == q[i]);
            }
        }
    }
}

/// White space around a text that neither starts nor ends with white space
/// is exactly what trimming removes.
pub proof fn lemma_trim_surrounded(pre: Seq<char>, core: Seq<char>, post: Seq<char>)
    requires
        forall|i: int| 0 <= i < pre.len() ==> is_whitespace_spec(#[trigger] pre[i]),
        forall|i: int| 0 <= i < post.len() ==> is_whitespace_spec(#[trigger] post[i]),
        core.len() > 0,
        !is_whitespace_spec(core[0]),
        !is_whitespace_spec(core.last()),
    ensures
        trim_spec(pre + core + post) == core,
{
    let x = pre + core + post;
    lemma_leading_ws(x);
    let k = leading_ws(x);
    if k < pre.len() {
        assert(x[k] == pre[k]);
    } else if k > pre.len() {
        assert(x[pre.len() as int] == core[0]);
    }
    assert(k == pre.len());
    let a = x.skip(k);
    assert(a =~= core + post);
    lemma_trailing_ws(a);
    let t = trailing_ws(a);
    let n = a.len();
    if t < post.len() {
        assert(a[n - t - 1] == post[post.len() - t - 1]);
    } else if t > post.len() {
        assert(a[n - post.len() - 1] == core.last());
    }
    assert(t == post.len());
    assert(a.take(a.len() - t) =~= core);
}

/// A text without separators followed by a separator (or by nothing): its
/// first field ends where the text does.
proof fn lemma_sep_index_prefix(d: Seq<char>, rest: Seq<char>)
    requires
        forall|i: int| 0 <= i < d.len() ==> !is_version_sep(#[trigger] d[i]),
        rest.len() == 0 || is_version_sep(rest[0]),
    ensures
        sep_index(d + rest) == d.len(),
{
    let x = d + rest;
    lemma_sep_index(x);
    let k = sep_index(x);
    if k < d.len() {
        assert(x[k] == d[k]);
    } else if k > d.len() {
        assert(x[d.len() as int] == rest[0]);
    }
}

/// A decimal text read as a version field gives back its number.
proof fn lemma_field_number_decimal(n: u32)
    ensures
        field_number(Some(decimal_spec(n as u64))) == n,
{
    let d = decimal_spec(n as u64);
    lemma_decimal(n as u64);
    assert(!is_whitespace_spec(d[0]));
    assert(!is_whitespace_spec(d.last()));
    lemma_trim_surrounded(Seq::empty(), d, Seq::empty());
    assert(Seq::<char>::empty() + d + Seq::<char>::empty() =~= d);
    assert(d[0] != '+');
}

/// The text of version a.b.c.
pub open spec fn version_text(a: u32, b: u32, c: u32) -> Seq<char> {
    decimal_spec(a as u64) + seq!['.'] + decimal_spec(b as u64) + seq!['.'] + decimal_spec(
        c as u64,
    )
}

/// Digits are neither separators nor white space.
proof fn lemma_digits_plain(d: Seq<char>)
    requires
        all_digits(d),
    ensures
        forall|i: int| 0 <= i < d.len() ==> !is_version_sep(#[trigger] d[i]),
        forall|i: int| 0 <= i < d.len() ==> !is_whitespace_spec(#[trigger] d[i]),
        forall|i: int| 0 <= i < d.len() ==> #[trigger] d[i] != 'v',
{
    assert forall|i: int| 0 <= i < d.len() implies !is_whitespace_spec(#[trigger] d[i]) by {
        assert('0' <= d[i] <= '9');
    }
}

/// The first three fields of "a.b.c" followed by a suffix are the three
/// decimal texts.
#[verifier::spinoff_prover]
#[verifier::rlimit(40)]
proof fn lemma_version_fields(a: u32, b: u32, c: u32, suffix: Seq<char>)
    requires
        suffix.len() == 0 || is_version_sep(suffix[0]),
    ensures
        nth_field(version_text(a, b, c) + suffix, 0) == Some(decimal_spec(a as u64)),
        nth_field(version_text(a, b, c) + suffix, 1) == Some(decimal_spec(b as u64)),
        nth_field(version_text(a, b, c) + suffix, 2) == Some(decimal_spec(c as u64)),
{
    let da = decimal_spec(a as u64);
    let db = decimal_spec(b as u64);
    let dc = decimal_spec(c as u64);
    lemma_decimal(a as u64);
    lemma_decimal(b as u64);
    lemma_decimal(c as u64);
    lemma_digits_plain(da);
    lemma_digits_plain(db);
    lemma_digits_plain(dc);
    let t = version_text(a, b, c) + suffix;
    let t1 = db + seq!['.'] + dc + suffix;
    let t2 = dc + suffix;
    assert(t =~= da + (seq!['.'] + t1));
    assert(t1 =~= db + (seq!['.'] + t2));
    lemma_sep_index_prefix(da, seq!['.'] + t1);
    lemma_sep_index_prefix(db, seq!['.'] + t2);
    lemma_sep_index_prefix(dc, suffix);
    assert(t.take(da.len() as int) =~= da);
    assert(t.skip(da.len() + 1int) =~= t1);
    assert(t1.take(db.len() as int) =~= db);
    assert(t1.skip(db.len() + 1int) =~= t2);
    assert(t2.take(dc.len() as int) =~= dc);
    assert(nth_field(t2, 0) == Some(dc));
    assert(nth_field(t1, 0) == Some(db));
    assert(nth_field(t1, 1) == nth_field(t2, 0));
    assert(nth_field(t, 0) == Some(da));
    assert(nth_field(t, 1) == nth_field(t1, 0));
    assert(nth_field(t, 2) == nth_field(t1, 1));
}

/// Trimming and removing the "v" from a surrounded version text leave
/// "a.b.c" and its suffix.
proof fn lemma_version_core(
    a: u32,
    b: u32,
    c: u32,
    pre: Seq<char>,
    with_v: bool,
    suffix: Seq<char>,
    post: Seq<char>,
)
    requires
        forall|i: int| 0 <= i < pre.len() ==> is_whitespace_spec(#[trigger] pre[i]),
        forall|i: int| 0 <= i < post.len() ==> is_whitespace_spec(#[trigger] post[i]),
        suffix.len() == 0 || !is_whitespace_spec(suffix.last()),
    ensures
        strip_v(
            trim_spec(
                pre + ((if with_v {
                    seq!['v']
                } else {
                    Seq::empty()
                }) + version_text(a, b, c) + suffix) + post,
            ),
        ) == version_text(a, b, c) + suffix,
{
    let da = decimal_spec(a as u64);
    let dc = decimal_spec(c as u64);
    lemma_decimal(a as u64);
    lemma_decimal(c as u64);
    lemma_digits_plain(da);
    lemma_digits_plain(dc);
    let t = version_text(a, b, c) + suffix;
    let vp: Seq<char> = if with_v {
        seq!['v']
    } else {
        Seq::empty()
    };
    let core = vp + t;
    assert(core =~= vp + version_text(a, b, c) + suffix);
    assert(t[0] == da[0]);
    if with_v {
        assert(core[0] == 'v');
    } else {
        assert(core[0] == da[0]);
    }
    if suffix.len() == 0 {
        assert(core.last() == dc.last());
    } else {
        assert(core.last() == suffix.last());
    }
    lemma_trim_surrounded(pre, core, post);
    assert(strip_v(t) == t);
    if with_v {
        assert(core.drop_first() =~= t);
        assert(strip_v(core) == strip_v(core.drop_first()));
    } else {
        assert(core =~= t);
    }
    assert(strip_v(core) == t);
}

/// A version written "a.b.c", optionally after a "v", optionally followed by a
/// suffix that starts with "-" or "+" (and does not end in white space), and
/// optionally surrounded by white space, reads as (a, b, c).
pub proof fn lemma_ver_tuple_reads_version(
    a: u32,
    b: u32,
    c: u32,
    pre: Seq<char>,
    with_v: bool,
    suffix: Seq<char>,
    post: Seq<char>,
)
    requires
        forall|i: int| 0 <= i < pre.len() ==> is_whitespace_spec(#[trigger] pre[i]),
        forall|i: int| 0 <= i < post.len() ==> is_whitespace_spec(#[trigger] post[i]),
        suffix.len() == 0 || (is_version_sep(suffix[0]) && !is_whitespace_spec(suffix.last())),
    ensures
        ver_tuple_spec(
            pre + ((if with_v {
                seq!['v']
            } else {
                Seq::empty()
            }) + version_text(a, b, c) + suffix) + post,
        ) == (a, b, c),
{
    lemma_version_core(a, b, c, pre, with_v, suffix, post);
    lemma_version_fields(a, b, c, suffix);
    lemma_field_number_decimal(a);
    lemma_field_number_decimal(b);
    lemma_field_number_decimal(c);
}

} // verus!
