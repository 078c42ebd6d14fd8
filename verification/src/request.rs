//! Construction of the query strings for the three endpoints, and of the
//! multipart schema part for an import.
//!
//! Each builder's result is pinned down exactly: the mandatory prefix,
//! then each present optional parameter in its fixed order, each absent
//! one omitted entirely, values inserted verbatim.

use vstd::prelude::*;
use vstd::string::StringExecFns;

use crate::num::push_dec;
use crate::types::{Atomicity, Limit, Schema};

verus! {

/// The wire rendering of a boolean parameter value.
pub open spec fn bool_seq(b: bool) -> Seq<char> {
    if b {
        "true"@
    } else {
        "false"@
    }
}

/// The views of an optional string parameter.
pub open spec fn opt_str_view(o: Option<&str>) -> Option<Seq<char>> {
    match o {
        Option::Some(s) => Option::Some(s@),
        Option::None => Option::None,
    }
}

/// `&limit=N` or `&limit=L,U` when a limit is given, nothing otherwise.
pub open spec fn limit_part(limit: Option<Limit>) -> Seq<char> {
    match limit {
        Option::Some(l) => "&limit="@ + l.wire_spec(),
        Option::None => Seq::<char>::empty(),
    }
}

/// `&count=B` when given, nothing otherwise.
pub open spec fn count_part(count: Option<bool>) -> Seq<char> {
    match count {
        Option::Some(c) => "&count="@ + bool_seq(c),
        Option::None => Seq::<char>::empty(),
    }
}

/// `&nm=B` when given, nothing otherwise.
pub open spec fn nm_part(nm: Option<bool>) -> Seq<char> {
    match nm {
        Option::Some(n) => "&nm="@ + bool_seq(n),
        Option::None => Seq::<char>::empty(),
    }
}

/// `&name=T` when a table name is given, nothing otherwise.
pub open spec fn name_part(name: Option<Seq<char>>) -> Seq<char> {
    match name {
        Option::Some(n) => "&name="@ + n,
        Option::None => Seq::<char>::empty(),
    }
}

/// `&overwrite=B` when given, nothing otherwise.
pub open spec fn overwrite_part(overwrite: Option<bool>) -> Seq<char> {
    match overwrite {
        Option::Some(o) => "&overwrite="@ + bool_seq(o),
        Option::None => Seq::<char>::empty(),
    }
}

/// `&durable=B` when given, nothing otherwise.
pub open spec fn durable_part(durable: Option<bool>) -> Seq<char> {
    match durable {
        Option::Some(d) => "&durable="@ + bool_seq(d),
        Option::None => Seq::<char>::empty(),
    }
}

/// `&atomicity=M` (lowercase mode token) when given, nothing otherwise.
pub open spec fn atomicity_part(atomicity: Option<Atomicity>) -> Seq<char> {
    match atomicity {
        Option::Some(a) => "&atomicity="@ + a.wire_spec(),
        Option::None => Seq::<char>::empty(),
    }
}

/// The full query-execution URL: base, `/exec?query=`, the query verbatim,
/// then the present optionals in the fixed order limit, count, nm.
pub open spec fn exec_url_spec(
    base: Seq<char>,
    query: Seq<char>,
    limit: Option<Limit>,
    count: Option<bool>,
    nm: Option<bool>,
) -> Seq<char> {
    base + "/exec?query="@ + query + limit_part(limit) + count_part(count) + nm_part(nm)
}

/// The full import URL: base, `/imp?fmt=json`, then the present optionals
/// in the fixed order name, overwrite, durable, atomicity.
pub open spec fn imp_url_spec(
    base: Seq<char>,
    name: Option<Seq<char>>,
    overwrite: Option<bool>,
    durable: Option<bool>,
    atomicity: Option<Atomicity>,
) -> Seq<char> {
    base + "/imp?fmt=json"@ + name_part(name) + overwrite_part(overwrite) + durable_part(durable)
        + atomicity_part(atomicity)
}

/// The full export URL: base, `/exp?query=`, the query verbatim, then the
/// limit when present.
pub open spec fn exp_url_spec(
    base: Seq<char>,
    query: Seq<char>,
    limit: Option<Limit>,
) -> Seq<char> {
    base + "/exp?query="@ + query + limit_part(limit)
}

/// The constructed `/exec` query string holds exactly the present optional
/// parameters, in the fixed order limit, count, nm, after the mandatory
/// query: each present parameter contributes its own `&name=value` fragment
/// with the value rendered verbatim, and each absent one contributes
/// nothing at all.
pub proof fn lemma_exec_url_params(
    base: Seq<char>,
    query: Seq<char>,
    limit: Option<Limit>,
    count: Option<bool>,
    nm: Option<bool>,
)
    ensures
        exec_url_spec(base, query, limit, count, nm) == base + "/exec?query="@ + query
            + limit_part(limit) + count_part(count) + nm_part(nm),
        limit is Some ==> limit_part(limit) == "&limit="@ + limit->0.wire_spec(),
        limit is None ==> limit_part(limit) == Seq::<char>::empty(),
        count is Some ==> count_part(count) == "&count="@ + bool_seq(count->0),
        count is None ==> count_part(count) == Seq::<char>::empty(),
        nm is Some ==> nm_part(nm) == "&nm="@ + bool_seq(nm->0),
        nm is None ==> nm_part(nm) == Seq::<char>::empty(),
{
}

fn bool_str(b: bool) -> (r: &'static str)
    ensures
        r@ == bool_seq(b),
{
    if b {
        "true"
    } else {
        "false"
    }
}

/// Appends the wire rendering of a limit to `s`.
fn push_limit(s: &mut String, l: Limit)
    ensures
        final(s)@ == old(s)@ + l.wire_spec(),
{
    match l {
        Limit::Upper(n) => {
            push_dec(s, n);
        },
        Limit::Range(lo, hi) => {
            push_dec(s, lo);
            s.append(",");
            push_dec(s, hi);
            proof {
                assert(s@ =~= old(s)@ + l.wire_spec());
            }
        },
    }
}

/// Builds the URL of a `/exec` request.
pub fn exec_url(
    base: &str,
    query: &str,
    limit: Option<Limit>,
    count: Option<bool>,
    nm: Option<bool>,
) -> (r: String)
    ensures
        r@ == exec_url_spec(base@, query@, limit, count, nm),
{
    let mut url = String::from_str(base);
    url.append("/exec?query=");
    url.append(query);
    if let Option::Some(l) = limit {
        url.append("&limit=");
        push_limit(&mut url, l);
    }
    if let Option::Some(c) = count {
        url.append("&count=");
        url.append(bool_str(c));
    }
    if let Option::Some(n) = nm {
        url.append("&nm=");
        url.append(bool_str(n));
    }
    proof {
        assert(url@ =~= exec_url_spec(base@, query@, limit, count, nm));
    }
    url
}

/// Builds the URL of a `/imp` request.
#[verifier::rlimit(100)]
pub fn imp_url(
    base: &str,
    table_name: Option<&str>,
    overwrite: Option<bool>,
    durable: Option<bool>,
    atomicity: Option<Atomicity>,
) -> (r: String)
    ensures
        r@ == imp_url_spec(base@, opt_str_view(table_name), overwrite, durable, atomicity),
{
    let mut url = String::from_str(base);
    url.append("/imp?fmt=json");
    if let Option::Some(t) = table_name {
        url.append("&name=");
        url.append(t);
    }
    if let Option::Some(o) = overwrite {
        url.append("&overwrite=");
        url.append(bool_str(o));
    }
    if let Option::Some(d) = durable {
        url.append("&durable=");
        url.append(bool_str(d));
    }
    if let Option::Some(a) = atomicity {
        url.append("&atomicity=");
        url.append(a.wire_str());
    }
    proof {
        assert(url@ =~= imp_url_spec(base@, opt_str_view(table_name), overwrite, durable,
            atomicity));
    }
    url
}

/// Builds the URL of a `/exp` request.
pub fn exp_url(base: &str, query: &str, limit: Option<Limit>) -> (r: String)
    ensures
        r@ == exp_url_spec(base@, query@, limit),
{
    let mut url = String::from_str(base);
    url.append("/exp?query=");
    url.append(query);
    if let Option::Some(l) = limit {
        url.append("&limit=");
        push_limit(&mut url, l);
    }
    proof {
        assert(url@ =~= exp_url_spec(base@, query@, limit));
    }
    url
}

/// One `name=TYPE` pair of the schema string.
pub open spec fn pair_spec(name: Seq<char>, t: Schema) -> Seq<char> {
    name + "="@ + t.wire_spec()
}

/// The schema string: the `name=TYPE` pairs in declaration order, joined by
/// `&`, with no trailing separator.
pub open spec fn schema_spec(cols: Seq<(Seq<char>, Schema)>) -> Seq<char>
    decreases cols.len(),
{
    if cols.len() == 0 {
        Seq::<char>::empty()
    } else if cols.len() == 1 {
        pair_spec(cols[0].0, cols[0].1)
    } else {
        schema_spec(cols.drop_last()) + "&"@ + pair_spec(cols.last().0, cols.last().1)
    }
}

/// The views of a declared column list.
pub open spec fn cols_view(cols: Seq<(String, Schema)>) -> Seq<(Seq<char>, Schema)> {
    cols.map_values(|p: (String, Schema)| (p.0@, p.1))
}

/// Declaring one more column extends the schema string by a `&` separator
/// (absent before the first column) and that column's `name=TYPE` pair:
/// declaration order is preserved and there is never a trailing separator.
pub proof fn lemma_schema_spec_extend(
    cols: Seq<(Seq<char>, Schema)>,
    name: Seq<char>,
    t: Schema,
)
    ensures
        cols.len() == 0 ==> schema_spec(cols.push((name, t))) == pair_spec(name, t),
        cols.len() > 0 ==> schema_spec(cols.push((name, t))) == schema_spec(cols) + "&"@
            + pair_spec(name, t),
{
    let p = cols.push((name, t));
    assert(p.drop_last() =~= cols);
    assert(p.last() == (name, t));
}

/// Builds the text body of the multipart `schema` part from the declared
/// columns, order preserved.
pub fn schema_string(cols: &Vec<(String, Schema)>) -> (r: String)
    ensures
        r@ == schema_spec(cols_view(cols@)),
{
    let mut out = String::new();
    let mut i: usize = 0;
    while i < cols.len()
        invariant
            i <= cols.len(),
            out@ == schema_spec(cols_view(cols@).take(i as int)),
        decreases cols.len() - i,
    {
        if i > 0 {
            out.append("&");
        }
        out.append(cols[i].0.as_str());
        out.append("=");
        out.append(cols[i].1.wire_str());
        proof {
            let cv = cols_view(cols@);
            assert(cv[i as int] == (cols@[i as int].0@, cols@[i as int].1));
            assert(cv.take(i + 1).drop_last() =~= cv.take(i as int));
            assert(cv.take(i + 1).last() == cv[i as int]);
            assert(out@ =~= schema_spec(cv.take(i + 1)));
        }
        i += 1;
    }
    proof {
        assert(cols_view(cols@).take(cols@.len() as int) =~= cols_view(cols@));
    }
    out
}

/// A path with its trailing `/` separators removed.
pub open spec fn strip_slashes(s: Seq<char>) -> Seq<char>
    decreases s.len(),
{
    if s.len() > 0 && s.last() == '/' {
        strip_slashes(s.drop_last())
    } else {
        s
    }
}

/// What follows the last `/` of a path: the whole path when it has none,
/// nothing when it ends in one.
pub open spec fn after_last_slash(s: Seq<char>) -> Seq<char>
    decreases s.len(),
{
    if s.len() == 0 {
        s
    } else if s.last() == '/' {
        Seq::<char>::empty()
    } else {
        after_last_slash(s.drop_last()).push(s.last())
    }
}

/// The filename an import upload carries: the path's base name — what
/// follows the last `/`, trailing separators ignored — or the full path
/// where no base name exists.
pub open spec fn upload_file_name_spec(s: Seq<char>) -> Seq<char> {
    if after_last_slash(strip_slashes(s)).len() == 0 {
        s
    } else {
        after_last_slash(strip_slashes(s))
    }
}

/// Computes the upload filename of an import file's path.
pub fn upload_file_name(path: &str) -> (r: String)
    ensures
        r@ == upload_file_name_spec(path@),
{
    let n = path.unicode_len();
    proof {
        assert(path@.take(n as int) =~= path@);
    }
    let mut end: usize = n;
    while end > 0
        invariant
            end <= n,
            n == path@.len(),
            strip_slashes(path@) == strip_slashes(path@.take(end as int)),
        ensures
            end <= n,
            strip_slashes(path@) == path@.take(end as int),
        decreases end,
    {
        if path.get_char(end - 1) == '/' {
            proof {
                assert(path@.take(end as int).last() == path@[end - 1]);
                assert(path@.take(end as int).drop_last() =~= path@.take(end - 1));
            }
            end = end - 1;
        } else {
            proof {
                assert(path@.take(end as int).last() == path@[end - 1]);
            }
            break;
        }
    }
    let mut cut: usize = 0;
    let mut i: usize = 0;
    while i < end
        invariant
            cut <= i <= end <= n,
            n == path@.len(),
            strip_slashes(path@) == path@.take(end as int),
            after_last_slash(path@.take(i as int)) == path@.subrange(cut as int, i as int),
        decreases end - i,
    {
        let c = path.get_char(i);
        proof {
            assert(path@.take(i + 1).drop_last() =~= path@.take(i as int));
            assert(path@.take(i + 1).last() == path@[i as int]);
        }
        if c == '/' {
            cut = i + 1;
            proof {
                assert(after_last_slash(path@.take(i + 1)) =~= path@.subrange(
                    cut as int,
                    i + 1,
                ));
            }
        } else {
            proof {
                assert(after_last_slash(path@.take(i + 1)) =~= path@.subrange(
                    cut as int,
                    i + 1,
                ));
            }
        }
        i = i + 1;
    }
    if cut >= end {
        String::from_str(path)
    } else {
        String::from_str(path.substring_char(cut, end))
    }
}

} // verus!
