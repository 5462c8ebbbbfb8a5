use vstd::prelude::*;
use vstd::string::StrSliceExecFns;
use vstd::string::StringExecFns;

use crate::error::HarvestError;
use crate::text::char_vec;

verus! {

/// The identifier under which the hosting platform knows an application in a
/// given environment: `app + "-" + env`.
pub open spec fn app_identifier(app: Seq<char>, env: Seq<char>) -> Seq<char> {
    app + seq!['-'] + env
}

/// The identifier is `app`, one `-`, then `env`, character for character,
/// whatever the two names hold.
pub proof fn lemma_identifier_layout(app: Seq<char>, env: Seq<char>)
    ensures
        app_identifier(app, env).len() == app.len() + 1 + env.len(),
        app_identifier(app, env).subrange(0, app.len() as int) == app,
        app_identifier(app, env)[app.len() as int] == '-',
        app_identifier(app, env).subrange((app.len() + 1) as int, (app.len() + 1 + env.len()) as int) == env,
{
    assert(app_identifier(app, env).subrange(0, app.len() as int) =~= app);
    assert(app_identifier(app, env).subrange((app.len() + 1) as int, (app.len() + 1 + env.len()) as int) =~= env);
}

/// Composes the platform identifier of `app_name` deployed in `env_name`.
pub fn build_heroku_app_name(app_name: &String, env_name: &String) -> (r: String)
    ensures
        r@ == app_identifier(app_name@, env_name@),
{
    let sep = "-";
    proof {
        reveal_strlit("-");
    }
    let mut r = app_name.clone();
    r.append(sep);
    r.append(env_name.as_str());
    r
}


/// Unicode's White_Space property, the set that `char::is_whitespace` tests.
pub open spec fn is_white(c: char) -> bool {
    let u = c as u32;
    (0x09 <= u && u <= 0x0D) || u == 0x20 || u == 0x85 || u == 0xA0 || u == 0x1680 || (0x2000
        <= u && u <= 0x200A) || u == 0x2028 || u == 0x2029 || u == 0x202F || u == 0x205F || u
        == 0x3000
}

/// Whether `c` is whitespace.
pub fn is_whitespace(c: char) -> (r: bool)
    ensures
        r == is_white(c),
{
    let u = c as u32;
    (0x09 <= u && u <= 0x0D) || u == 0x20 || u == 0x85 || u == 0xA0 || u == 0x1680 || (0x2000
        <= u && u <= 0x200A) || u == 0x2028 || u == 0x2029 || u == 0x202F || u == 0x205F || u
        == 0x3000
}

/// The length of the first `n` characters of `s` once trailing whitespace is cut off.
pub open spec fn trimmed_len(s: Seq<char>, n: int) -> int
    decreases n,
{
    if n <= 0 {
        0
    } else if is_white(s[n - 1]) {
        trimmed_len(s, n - 1)
    } else {
        n
    }
}

/// Where the run of non-whitespace characters that ends at `n` begins.
pub open spec fn token_start(s: Seq<char>, n: int) -> int
    decreases n,
{
    if n <= 0 {
        0
    } else if is_white(s[n - 1]) {
        n
    } else {
        token_start(s, n - 1)
    }
}

/// The last whitespace-delimited field of `out`, trailing whitespace removed.
pub open spec fn database_name(out: Seq<char>) -> Seq<char> {
    let e = trimmed_len(out, out.len() as int);
    out.subrange(token_start(out, e), e)
}

/// `out` holds at least one character that is not whitespace.
pub open spec fn has_token(out: Seq<char>) -> bool {
    exists|i: int| 0 <= i < out.len() && !is_white(out[i])
}

/// `t` is a usable reference: not empty, and free of whitespace.
pub open spec fn well_shaped(t: Seq<char>) -> bool {
    t.len() > 0 && forall|i: int| 0 <= i < t.len() ==> !is_white(t[i])
}

proof fn lemma_trimmed_len(s: Seq<char>, n: int)
    requires
        0 <= n <= s.len(),
    ensures
        0 <= trimmed_len(s, n) <= n,
        forall|i: int| trimmed_len(s, n) <= i < n ==> is_white(s[i]),
        trimmed_len(s, n) > 0 ==> !is_white(s[trimmed_len(s, n) - 1]),
    decreases n,
{
    if n > 0 && is_white(s[n - 1]) {
        lemma_trimmed_len(s, n - 1);
    }
}

proof fn lemma_token_start(s: Seq<char>, n: int)
    requires
        0 <= n <= s.len(),
    ensures
        0 <= token_start(s, n) <= n,
        forall|i: int| token_start(s, n) <= i < n ==> !is_white(s[i]),
    decreases n,
{
    if n > 0 && !is_white(s[n - 1]) {
        lemma_token_start(s, n - 1);
    }
}

/// The database name that the platform tool's info output ends with: its
/// last whitespace-delimited field. Output with no such field is an error.
pub fn extract_database_name(output: &str) -> (r: Result<String, HarvestError>)
    ensures
        r is Ok <==> has_token(output@),
        r matches Ok(name) ==> name@ == database_name(output@) && well_shaped(name@),
        r matches Err(e) ==> e == HarvestError::ExtractionError,
{
    let v = char_vec(output);
    let mut e: usize = v.len();
    while e > 0 && is_whitespace(v[e - 1])
        invariant
            e <= v@.len(),
            v@ == output@,
            trimmed_len(v@, v@.len() as int) == trimmed_len(v@, e as int),
        decreases e,
    {
        e = e - 1;
    }
    proof {
        lemma_trimmed_len(v@, v@.len() as int);
    }
    if e == 0 {
        return Err(HarvestError::ExtractionError);
    }
    let mut b: usize = e;
    while b > 0 && !is_whitespace(v[b - 1])
        invariant
            b <= e <= v@.len(),
            token_start(v@, e as int) == token_start(v@, b as int),
        decreases b,
    {
        b = b - 1;
    }
    proof {
        lemma_token_start(v@, e as int);
        assert(!is_white(output@[e - 1]));
    }
    let name = String::from_str(output.substring_char(b, e));
    assert(forall|i: int| 0 <= i < name@.len() ==> name@[i] == output@[b + i]);
    Ok(name)
}

/// `s` with one trailing line terminator (`"\n"` or `"\r\n"`) removed.
pub open spec fn without_line_end(s: Seq<char>) -> Seq<char> {
    if s.len() >= 2 && s[s.len() - 2] == '\r' && s[s.len() - 1] == '\n' {
        s.subrange(0, s.len() - 2)
    } else if s.len() >= 1 && s[s.len() - 1] == '\n' {
        s.subrange(0, s.len() - 1)
    } else {
        s
    }
}

/// The connection URL that the platform tool printed on a line of its own:
/// the output less one trailing line terminator, which must be non-empty and
/// free of whitespace.
pub fn extract_connection_url(output: &str) -> (r: Result<String, HarvestError>)
    ensures
        r is Ok <==> well_shaped(without_line_end(output@)),
        r matches Ok(url) ==> url@ == without_line_end(output@),
        r matches Err(e) ==> e == HarvestError::ExtractionError,
{
    let v = char_vec(output);
    let n = v.len();
    let end: usize = if n >= 2 && v[n - 2] == '\r' && v[n - 1] == '\n' {
        n - 2
    } else if n >= 1 && v[n - 1] == '\n' {
        n - 1
    } else {
        n
    };
    assert(without_line_end(output@) =~= output@.subrange(0, end as int));
    if end == 0 {
        return Err(HarvestError::ExtractionError);
    }
    let mut i: usize = 0;
    while i < end
        invariant
            end <= v@.len(),
            v@ == output@,
            without_line_end(output@) == output@.subrange(0, end as int),
            forall|k: int| 0 <= k < i ==> !is_white(v@[k]),
        decreases end - i,
    {
        if is_whitespace(v[i]) {
            assert(without_line_end(output@)[i as int] == v@[i as int]);
            return Err(HarvestError::ExtractionError);
        }
        i = i + 1;
    }
    Ok(String::from_str(output.substring_char(0, end)))
}

} // verus!
