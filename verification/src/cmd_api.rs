//! The `api` command: the request that it makes out of its arguments.
use vstd::prelude::*;

use crate::cmd_alias::{tab_align, tab_aligned};
use crate::colors::{AnsiStyle, ColorScheme};
use crate::naming::{lower_case, to_lowercase};
use crate::text::{
    all_digits, concat2, concat3, digits_value, find_char, has_prefix, has_substring, is_digit, lemma_digits_nonneg,
    owned, parse_i64, parsed_i64, parsed_integer, slice_chars, starts_with_char, str_equal, strip_all_prefix,
    trim_start_matches,
};

verus! {

/// Makes an authenticated HTTP request to the Oxide API and prints the response.
pub struct CmdApi {
    pub endpoint: String,
    /// The HTTP method, upper case, when one is given.
    pub method: Option<String>,
    pub paginate: bool,
    /// Typed parameters, `key=value`.
    pub field: Vec<String>,
    /// String parameters, `key=value`.
    pub raw_field: Vec<String>,
    /// The file that holds the body (`-`: standard input); empty for none.
    pub input: String,
    pub show_headers: bool,
}

/// `endpoint` with the query string appended (after `&` when it already has a query).
pub open spec fn with_query(endpoint: Seq<char>, query: Seq<char>) -> Seq<char> {
    if endpoint.contains('?') {
        endpoint + "&"@ + query
    } else {
        endpoint + "?"@ + query
    }
}

/// Appends `query_string` to `endpoint`.
pub fn add_query_string(endpoint: &str, query_string: &str) -> (r: String)
    ensures
        r@ == with_query(endpoint@, query_string@),
{
    match find_char(endpoint, '?') {
        Some(_) => concat3(endpoint, "&", query_string),
        None => {
            assert(!endpoint@.contains('?'));
            concat3(endpoint, "?", query_string)
        },
    }
}

/// The endpoint with a leading `/`.
pub open spec fn normalized_endpoint(e: Seq<char>) -> Seq<char> {
    if e.len() > 0 && e[0] == '/' {
        e
    } else {
        "/"@ + e
    }
}

/// A parameter value as the `--field` flag reads it.
pub enum FieldValue {
    /// An integer.
    Int(i64),
    Bool(bool),
    Null,
    /// The contents of this file (`@path`).
    File(String),
    /// The contents of standard input (`-` or `@-`).
    Stdin,
    /// A `--field` value that is none of the above: a number when it reads as a
    /// floating-point number (which the caller converts), else a string.
    Typed(String),
    /// A string, as given: a `--raw-field` value.
    Str(String),
}

/// The model of a field value.
pub enum FieldSpec {
    Int(int),
    Bool(bool),
    Null,
    File(Seq<char>),
    Stdin,
    Typed(Seq<char>),
    Str(Seq<char>),
}

pub open spec fn field_view(v: FieldValue) -> FieldSpec {
    match v {
        FieldValue::Int(i) => FieldSpec::Int(i as int),
        FieldValue::Bool(b) => FieldSpec::Bool(b),
        FieldValue::Null => FieldSpec::Null,
        FieldValue::File(p) => FieldSpec::File(p@),
        FieldValue::Stdin => FieldSpec::Stdin,
        FieldValue::Typed(s) => FieldSpec::Typed(s@),
        FieldValue::Str(s) => FieldSpec::Str(s@),
    }
}

/// How a `--field` value is read: an integer, `true`, `false`, `null`, `-` or `@-`
/// for standard input, `@file`, else a value left for the caller to read as a
/// number or a string.
pub open spec fn typed_value(v: Seq<char>) -> FieldSpec {
    match parsed_i64(v) {
        Some(i) => FieldSpec::Int(i as int),
        None => if v == "true"@ {
            FieldSpec::Bool(true)
        } else if v == "false"@ {
            FieldSpec::Bool(false)
        } else if v == "null"@ {
            FieldSpec::Null
        } else if v == "@-"@ || v == "-"@ {
            FieldSpec::Stdin
        } else if v.len() > 0 && v[0] == '@' {
            FieldSpec::File(strip_all_prefix(v, "@"@))
        } else {
            FieldSpec::Typed(v)
        },
    }
}

/// A `--field` value reads as a JSON boolean exactly when it is the text `true` or
/// `false`, and then it is the boolean that it spells.
pub proof fn law_field_booleans(v: Seq<char>)
    ensures
        (typed_value(v) is Bool) <==> (v == "true"@ || v == "false"@),
        v == "true"@ ==> typed_value(v) == FieldSpec::Bool(true),
        v == "false"@ ==> typed_value(v) == FieldSpec::Bool(false),
{
    reveal_strlit("true");
    reveal_strlit("false");
    if v == "true"@ || v == "false"@ {
        let body = if v.len() > 0 && (v[0] == '-' || v[0] == '+') { v.skip(1) } else { v };
        assert(body == v);
        assert(!is_digit(v[0]));
        assert(!all_digits(body));
        assert(parsed_integer(v) is None);
    }
}

/// How the other `--field` values read: only `null` is JSON null; only `-` and `@-`
/// stand for standard input; digits that fit in an `i64` are that integer; a value
/// that starts with `@` (other than `@-`) names the file after its leading `@`s; and
/// a value left as text is kept whole.
pub proof fn law_field_kinds(v: Seq<char>)
    ensures
        (typed_value(v) is Null) <==> v == "null"@,
        (typed_value(v) is Stdin) <==> (v == "-"@ || v == "@-"@),
        v.len() > 0 && all_digits(v) && digits_value(v) <= i64::MAX ==> typed_value(v) == FieldSpec::Int(digits_value(v)),
        v.len() > 0 && v[0] == '@' && v != "@-"@ ==> typed_value(v) == FieldSpec::File(strip_all_prefix(v, "@"@)),
        typed_value(v) is Typed ==> typed_value(v) == FieldSpec::Typed(v),
{
    reveal_strlit("true");
    reveal_strlit("false");
    reveal_strlit("null");
    reveal_strlit("-");
    reveal_strlit("@-");
    if v == "null"@ || v == "@-"@ || (v.len() > 0 && v[0] == '@') {
        assert(!is_digit(v[0]));
        assert(!all_digits(v));
        assert(parsed_integer(v) is None);
    }
    if v == "-"@ {
        assert(v.skip(1).len() == 0);
        assert(parsed_integer(v) is None);
    }
    if v.len() > 0 && all_digits(v) && digits_value(v) <= i64::MAX {
        lemma_digits_nonneg(v);
        assert(is_digit(v[0]));
        assert(parsed_integer(v) == Some(digits_value(v)));
    }
}

/// `key=value` split at its first `=`; `None` without one.
pub open spec fn split_field(f: Seq<char>) -> Option<(Seq<char>, Seq<char>)> {
    if f.contains('=') {
        let i = choose|i: int| 0 <= i < f.len() && f[i] == '=' && forall|j: int| 0 <= j < i ==> f[j] != '=';
        Some((f.take(i), f.skip(i + 1)))
    } else {
        None
    }
}

/// Splits `key=value` at the first `=`.
fn split_key_value(f: &str) -> (r: Option<(String, String)>)
    ensures
        match r {
            Some((k, v)) => split_field(f@) == Some((k@, v@)),
            None => split_field(f@) is None,
        },
{
    match find_char(f, '=') {
        Some(i) => {
            let n = f.unicode_len();
            let k = slice_chars(f, 0, i);
            let v = slice_chars(f, i + 1, n);
            proof {
                let j = choose|j: int| 0 <= j < f@.len() && f@[j] == '=' && forall|l: int| 0 <= l < j ==> f@[l] != '=';
                if j < i {
                    assert(f@[j] != '=');
                } else if j > i {
                    assert(f@[i as int] != '=');
                }
                assert(j == i);
                assert(k@ =~= f@.take(i as int));
                assert(v@ =~= f@.skip(i + 1));
            }
            Some((k, v))
        },
        None => {
            assert(!f@.contains('='));
            None
        },
    }
}

/// Reads a `--field` value.
pub fn typed_field_value(v: &str) -> (r: FieldValue)
    ensures
        field_view(r) == typed_value(v@),
{
    if let Some(i) = parse_i64(v) {
        return FieldValue::Int(i);
    }
    if str_equal(v, "true") {
        FieldValue::Bool(true)
    } else if str_equal(v, "false") {
        FieldValue::Bool(false)
    } else if str_equal(v, "null") {
        FieldValue::Null
    } else if str_equal(v, "@-") || str_equal(v, "-") {
        FieldValue::Stdin
    } else if starts_with_char(v, '@') {
        proof {
            reveal_strlit("@");
        }
        FieldValue::File(trim_start_matches(v, "@"))
    } else {
        FieldValue::Typed(owned(v))
    }
}

/// The parameters in order of first appearance; a later value for a key replaces the
/// earlier one in its place.
pub open spec fn params_insert(ps: Seq<(Seq<char>, FieldSpec)>, k: Seq<char>, v: FieldSpec) -> Seq<(Seq<char>, FieldSpec)> {
    if exists|i: int| 0 <= i < ps.len() && ps[i].0 == k {
        let i = choose|i: int| 0 <= i < ps.len() && ps[i].0 == k;
        ps.update(i, (k, v))
    } else {
        ps.push((k, v))
    }
}

/// Why the fields cannot be read.
#[derive(Debug)]
pub enum FieldError {
    /// "missing value in --raw-field"
    MissingRawValue,
    /// "missing value in --field"
    MissingValue,
}

pub open spec fn params_view(ps: Seq<(String, FieldValue)>) -> Seq<(Seq<char>, FieldSpec)> {
    ps.map_values(|p: (String, FieldValue)| (p.0@, field_view(p.1)))
}

/// The parameters after the fields `fs` (raw ones as strings when `raw`), or the
/// first error; `None` means a field without `=`.
pub open spec fn read_fields(ps: Seq<(Seq<char>, FieldSpec)>, fs: Seq<Seq<char>>, raw: bool) -> Option<Seq<(Seq<char>, FieldSpec)>>
    decreases fs.len(),
{
    if fs.len() == 0 {
        Some(ps)
    } else {
        match split_field(fs[0]) {
            None => None,
            Some((k, v)) => read_fields(params_insert(ps, k, if raw { FieldSpec::Str(v) } else { typed_value(v) }), fs.skip(1), raw),
        }
    }
}

fn insert_param(ps: &mut Vec<(String, FieldValue)>, k: String, v: FieldValue)
    requires
        forall|i: int, j: int| 0 <= i < j < old(ps)@.len() ==> old(ps)@[i].0@ != old(ps)@[j].0@,
    ensures
        params_view(final(ps)@) == params_insert(params_view(old(ps)@), k@, field_view(v)),
        forall|i: int, j: int| 0 <= i < j < final(ps)@.len() ==> final(ps)@[i].0@ != final(ps)@[j].0@,
{
    let ghost before = params_view(ps@);
    let mut i: usize = 0;
    while i < ps.len()
        invariant
            i <= ps@.len(),
            ps@ == old(ps)@,
            before == params_view(ps@),
            forall|a: int, b: int| 0 <= a < b < ps@.len() ==> ps@[a].0@ != ps@[b].0@,
            forall|j: int| 0 <= j < i ==> ps@[j].0@ != k@,
        decreases ps@.len() - i,
    {
        if str_equal(ps[i].0.as_str(), k.as_str()) {
            proof {
                assert(before[i as int].0 == k@);
                let c = choose|c: int| 0 <= c < before.len() && before[c].0 == k@;
                if c < i as int {
                    assert(ps@[c].0@ != ps@[i as int].0@);
                } else if c > i as int {
                    assert(ps@[i as int].0@ != ps@[c].0@);
                }
                assert(c == i as int);
            }
            let ghost vv = field_view(v);
            let ghost old_ps = ps@;
            ps.set(i, (k, v));
            assert(params_view(ps@) =~= before.update(i as int, (before[i as int].0, vv)));
            assert forall|a: int, b: int| 0 <= a < b < ps@.len() implies ps@[a].0@ != ps@[b].0@ by {
                assert(ps@[a].0@ == old_ps[a].0@);
                assert(ps@[b].0@ == old_ps[b].0@);
            }
            return;
        }
        i = i + 1;
    }
    let ghost vv = field_view(v);
    let ghost kk = k@;
    ps.push((k, v));
    assert(params_view(ps@) =~= before.push((kk, vv)));
}

impl CmdApi {
    /// Parameters are given: some `--field` or `--raw-field`.
    pub open spec fn has_params(&self) -> bool {
        self.field@.len() + self.raw_field@.len() > 0
    }

    /// The method of the request: the one given, else `POST` when parameters are
    /// given and `GET` otherwise.
    pub open spec fn spec_method(&self) -> Seq<char> {
        match self.method {
            Some(m) => m@,
            None => if self.has_params() {
                "POST"@
            } else {
                "GET"@
            },
        }
    }

    /// The method of the request.
    pub fn request_method(&self) -> (r: String)
        ensures
            r@ == self.spec_method(),
    {
        match &self.method {
            Some(m) => owned(m.as_str()),
            None => if self.field.len() > 0 || self.raw_field.len() > 0 {
                owned("POST")
            } else {
                owned("GET")
            },
        }
    }

    /// The endpoint of the request, with a leading `/`.
    pub fn endpoint_path(&self) -> (r: String)
        ensures
            r@ == normalized_endpoint(self.endpoint@),
    {
        if starts_with_char(self.endpoint.as_str(), '/') {
            owned(self.endpoint.as_str())
        } else {
            concat2("/", self.endpoint.as_str())
        }
    }

    /// Pagination is only for `GET` requests.
    pub fn check_paginate(&self) -> (r: Result<(), String>)
        ensures
            match r {
                Ok(_) => !(self.paginate && self.spec_method() != "GET"@),
                Err(m) => self.paginate && self.spec_method() != "GET"@ && m@
                    == "the `--paginate` option is not supported for non-GET requests"@,
            },
    {
        let method = self.request_method();
        if self.paginate && !str_equal(method.as_str(), "GET") {
            return Err(owned("the `--paginate` option is not supported for non-GET requests"));
        }
        Ok(())
    }

    /// The request parameters: the raw fields as strings, then the typed fields.
    pub fn parse_fields(&self) -> (r: Result<Vec<(String, FieldValue)>, FieldError>)
        ensures
            match r {
                Ok(ps) => ({
                    let raw = read_fields(seq![], words(self.raw_field@), true);
                    raw is Some && read_fields(raw.unwrap(), words(self.field@), false) == Some(params_view(ps@))
                }),
                Err(FieldError::MissingRawValue) => read_fields(seq![], words(self.raw_field@), true) is None,
                Err(FieldError::MissingValue) => read_fields(seq![], words(self.raw_field@), true) is Some
                    && read_fields(read_fields(seq![], words(self.raw_field@), true).unwrap(), words(self.field@), false) is None,
            },
    {
        let mut params: Vec<(String, FieldValue)> = Vec::new();
        assert(params_view(params@) =~= seq![]);
        let mut i: usize = 0;
        assert(words(self.raw_field@).skip(0) =~= words(self.raw_field@));
        while i < self.raw_field.len()
            invariant
                i <= self.raw_field@.len(),
                read_fields(seq![], words(self.raw_field@), true) == read_fields(params_view(params@), words(self.raw_field@).skip(i as int), true),
                forall|a: int, b: int| 0 <= a < b < params@.len() ==> params@[a].0@ != params@[b].0@,
            decreases self.raw_field@.len() - i,
        {
            assert(words(self.raw_field@).skip(i as int)[0] == self.raw_field@[i as int]@);
            assert(words(self.raw_field@).skip(i as int).skip(1) =~= words(self.raw_field@).skip(i + 1));
            match split_key_value(self.raw_field[i].as_str()) {
                None => {
                    return Err(FieldError::MissingRawValue);
                },
                Some((k, v)) => {
                    insert_param(&mut params, k, FieldValue::Str(v));
                },
            }
            i = i + 1;
        }
        let ghost raw = params_view(params@);
        let mut j: usize = 0;
        assert(words(self.field@).skip(0) =~= words(self.field@));
        while j < self.field.len()
            invariant
                j <= self.field@.len(),
                read_fields(seq![], words(self.raw_field@), true) == Some(raw),
                read_fields(raw, words(self.field@), false) == read_fields(params_view(params@), words(self.field@).skip(j as int), false),
                forall|a: int, b: int| 0 <= a < b < params@.len() ==> params@[a].0@ != params@[b].0@,
            decreases self.field@.len() - j,
        {
            assert(words(self.field@).skip(j as int)[0] == self.field@[j as int]@);
            assert(words(self.field@).skip(j as int).skip(1) =~= words(self.field@).skip(j + 1));
            match split_key_value(self.field[j].as_str()) {
                None => {
                    return Err(FieldError::MissingValue);
                },
                Some((k, v)) => {
                    let value = typed_field_value(v.as_str());
                    insert_param(&mut params, k, value);
                },
            }
            j = j + 1;
        }
        Ok(params)
    }
}

/// The views of a list of strings.
pub open spec fn words(v: Seq<String>) -> Seq<Seq<char>> {
    v.map_values(|s: String| s@)
}

/// The query string of rendered parameters: `key=value` pairs joined by `&`.
pub open spec fn query_of(pairs: Seq<(Seq<char>, Seq<char>)>) -> Seq<char>
    decreases pairs.len(),
{
    if pairs.len() == 0 {
        Seq::empty()
    } else if pairs.len() == 1 {
        pairs[0].0 + "="@ + pairs[0].1
    } else {
        query_of(pairs.drop_last()) + "&"@ + pairs.last().0 + "="@ + pairs.last().1
    }
}

/// Joins rendered parameters into a query string.
pub fn build_query_string(pairs: &Vec<(String, String)>) -> (r: String)
    ensures
        r@ == query_of(pairs@.map_values(|p: (String, String)| (p.0@, p.1@))),
{
    let ghost ps = pairs@.map_values(|p: (String, String)| (p.0@, p.1@));
    let mut q = String::new();
    let mut i: usize = 0;
    while i < pairs.len()
        invariant
            ps == pairs@.map_values(|p: (String, String)| (p.0@, p.1@)),
            i <= pairs@.len(),
            q@ == query_of(ps.take(i as int)),
        decreases pairs@.len() - i,
    {
        assert(ps.take(i + 1).drop_last() =~= ps.take(i as int));
        if i > 0 {
            q.append("&");
        }
        q.append(pairs[i].0.as_str());
        q.append("=");
        q.append(pairs[i].1.as_str());
        i = i + 1;
    }
    assert(ps.take(pairs@.len() as int) =~= ps);
    q
}

impl FieldError {
    pub fn to_string(&self) -> (r: String)
        ensures
            r@ == match self {
                FieldError::MissingRawValue => "missing value in --raw-field"@,
                FieldError::MissingValue => "missing value in --field"@,
            },
    {
        match self {
            FieldError::MissingRawValue => owned("missing value in --raw-field"),
            FieldError::MissingValue => owned("missing value in --field"),
        }
    }
}


/// What to do with a response of the API.
pub enum ResponseStep {
    /// No content (204): the command ends without printing.
    NoContent,
    /// The request failed: the command fails with this message.
    Fail(String),
    /// Print the body of this response.
    Print,
    /// Keep the items of this page and request the next one at this endpoint.
    NextPage(String),
    /// Keep the items of this last page and print all the items gathered.
    LastPage,
}

impl CmdApi {
    /// The step after a response with the status `status` (`status_text` is how the
    /// status displays, `reason` its canonical reason, empty when it has none), for
    /// a request made at `endpoint`; `next_page` is the page token of a paginated
    /// response.
    pub fn after_response(&self, endpoint: &str, status: u16, status_text: &str, reason: &str, next_page: Option<&str>) -> (r:
        ResponseStep)
        ensures
            if status == 204 {
                r == ResponseStep::NoContent
            } else if !(200 <= status && status < 300) {
                r matches ResponseStep::Fail(m) && m@ == status_text@ + " "@ + reason@
            } else if self.paginate {
                match next_page {
                    Some(t) => r matches ResponseStep::NextPage(e) && e@ == with_query(endpoint@, "page_token="@ + t@),
                    None => r == ResponseStep::LastPage,
                }
            } else {
                r == ResponseStep::Print
            },
    {
        if status == 204 {
            return ResponseStep::NoContent;
        }
        if !(200 <= status && status < 300) {
            return ResponseStep::Fail(concat3(status_text, " ", reason));
        }
        if self.paginate {
            match next_page {
                Some(t) => {
                    let q = concat2("page_token=", t);
                    ResponseStep::NextPage(add_query_string(endpoint, q.as_str()))
                },
                None => ResponseStep::LastPage,
            }
        } else {
            ResponseStep::Print
        }
    }
}


/// Strict order of texts, character by character (a proper prefix comes first), as
/// `String`'s order compares them.
pub open spec fn text_lt(a: Seq<char>, b: Seq<char>) -> bool
    decreases a.len(),
{
    if b.len() == 0 {
        false
    } else if a.len() == 0 {
        true
    } else if a[0] != b[0] {
        (a[0] as u32) < (b[0] as u32)
    } else {
        text_lt(a.drop_first(), b.drop_first())
    }
}

proof fn lemma_text_lt_trans(a: Seq<char>, b: Seq<char>, c: Seq<char>)
    requires
        text_lt(a, b),
        text_lt(b, c),
    ensures
        text_lt(a, c),
    decreases a.len(),
{
    if a.len() > 0 && a[0] == b[0] && b[0] == c[0] {
        lemma_text_lt_trans(a.drop_first(), b.drop_first(), c.drop_first());
    }
}

proof fn lemma_text_lt_total(a: Seq<char>, b: Seq<char>)
    requires
        a != b,
    ensures
        text_lt(a, b) || text_lt(b, a),
    decreases a.len(),
{
    if a.len() == 0 && b.len() == 0 {
        assert(a =~= b);
    } else if a.len() == 0 || b.len() == 0 {
    } else if a[0] != b[0] {
        vstd::utf8::char_u32_cast(a[0], a[0] as u32);
        vstd::utf8::char_u32_cast(b[0], b[0] as u32);
    } else {
        if a.drop_first() =~= b.drop_first() {
            assert(a =~= seq![a[0]] + a.drop_first());
            assert(b =~= seq![b[0]] + b.drop_first());
        } else {
            lemma_text_lt_total(a.drop_first(), b.drop_first());
        }
    }
}

/// Whether `a` comes strictly before `b`.
pub fn text_less(a: &str, b: &str) -> (r: bool)
    ensures
        r == text_lt(a@, b@),
{
    let n = a.unicode_len();
    let m = b.unicode_len();
    let mut i: usize = 0;
    assert(a@.skip(0) =~= a@);
    assert(b@.skip(0) =~= b@);
    while i < n && i < m
        invariant
            n == a@.len(),
            m == b@.len(),
            i <= n,
            i <= m,
            text_lt(a@, b@) == text_lt(a@.skip(i as int), b@.skip(i as int)),
        decreases n - i,
    {
        let c = a.get_char(i);
        let d = b.get_char(i);
        if c != d {
            return (c as u32) < (d as u32);
        }
        assert(a@.skip(i as int).drop_first() =~= a@.skip(i + 1));
        assert(b@.skip(i as int).drop_first() =~= b@.skip(i + 1));
        i = i + 1;
    }
    i < m
}

/// The key a header is ordered by: its name in lower case.
pub open spec fn header_key(h: (String, String)) -> Seq<char> {
    lower_case(h.0@)
}

/// The keys of the headers, in order.
pub open spec fn header_keys(hs: Seq<(String, String)>) -> Seq<Seq<char>> {
    hs.map_values(|h: (String, String)| header_key(h))
}

/// `p` lists each of `0..n` once.
pub open spec fn is_permutation(p: Seq<int>, n: int) -> bool {
    &&& p.len() == n
    &&& forall|k: int| 0 <= k < n ==> 0 <= #[trigger] p[k] < n
    &&& forall|k: int, l: int| 0 <= k < l < n ==> p[k] != p[l]
}

/// The entry of key `ka` that came from position `pa` goes before the entry of key
/// `kb` from position `pb`: its key is smaller, or the keys agree and it came first.
pub open spec fn goes_before(ka: Seq<char>, pa: int, kb: Seq<char>, pb: int) -> bool {
    text_lt(ka, kb) || (ka == kb && pa < pb)
}

/// Keys `ks`, which came from the positions `p`, are in order.
pub open spec fn keys_in_order(ks: Seq<Seq<char>>, p: Seq<int>) -> bool {
    forall|a: int, b: int| 0 <= a < b < ks.len() ==> goes_before(ks[a], p[a], ks[b], p[b])
}

/// `out` holds the headers of `inp`, the one at position `k` coming from position
/// `p[k]`, ordered by their names in lower case; headers whose names agree in lower
/// case keep their order.
pub open spec fn sorted_by_name(inp: Seq<(String, String)>, out: Seq<(String, String)>, p: Seq<int>) -> bool {
    &&& out.len() == inp.len()
    &&& is_permutation(p, inp.len() as int)
    &&& forall|k: int| 0 <= k < out.len() ==> #[trigger] out[k] == inp[p[k]]
    &&& keys_in_order(header_keys(out), p)
}

proof fn lemma_insert_in_order(ks: Seq<Seq<char>>, p: Seq<int>, j: int, key: Seq<char>, v: int)
    requires
        ks.len() == p.len(),
        0 <= j <= ks.len(),
        keys_in_order(ks, p),
        forall|m: int| 0 <= m < j ==> !text_lt(key, #[trigger] ks[m]),
        j < ks.len() ==> text_lt(key, ks[j]),
        forall|m: int| 0 <= m < p.len() ==> #[trigger] p[m] < v,
    ensures
        keys_in_order(ks.insert(j, key), p.insert(j, v)),
{
    let ks2 = ks.insert(j, key);
    let p2 = p.insert(j, v);
    ks.insert_ensures(j, key);
    p.insert_ensures(j, v);
    assert forall|a: int, b: int| 0 <= a < b < ks2.len() implies goes_before(ks2[a], p2[a], ks2[b], p2[b]) by {
        if a < j && b == j {
            if ks[a] != key {
                lemma_text_lt_total(ks[a], key);
            }
        } else if a == j && b > j {
            let m = b - 1;
            if m > j {
                assert(goes_before(ks[j], p[j], ks[m], p[m]));
                if text_lt(ks[j], ks[m]) {
                    lemma_text_lt_trans(key, ks[j], ks[m]);
                }
            }
        } else if a < j && b > j {
            assert(goes_before(ks[a], p[a], ks[b - 1], p[b - 1]));
        } else if a > j {
            assert(goes_before(ks[a - 1], p[a - 1], ks[b - 1], p[b - 1]));
        } else {
            assert(goes_before(ks[a], p[a], ks[b], p[b]));
        }
    }
}

/// The headers ordered by their names in lower case; headers whose names agree in
/// lower case keep their order.
pub fn sort_headers(headers: &Vec<(String, String)>) -> (r: Vec<(String, String)>)
    ensures
        exists|p: Seq<int>| sorted_by_name(headers@, r@, p),
{
    let mut out: Vec<(String, String)> = Vec::new();
    let mut keys: Vec<String> = Vec::new();
    let ghost mut p: Seq<int> = Seq::empty();
    let mut i: usize = 0;
    while i < headers.len()
        invariant
            i <= headers@.len(),
            out@.len() == i,
            keys@.len() == i,
            forall|k: int| 0 <= k < i ==> #[trigger] keys@[k]@ == header_key(out@[k]),
            is_permutation(p, i as int),
            forall|k: int| 0 <= k < i ==> #[trigger] out@[k] == headers@[p[k]],
            keys_in_order(header_keys(out@), p),
        decreases headers@.len() - i,
    {
        let key = to_lowercase(headers[i].0.as_str());
        let mut j: usize = 0;
        while j < keys.len()
            invariant
                j <= keys@.len(),
                forall|m: int| 0 <= m < j ==> !text_lt(key@, #[trigger] keys@[m]@),
            ensures
                j <= keys@.len(),
                forall|m: int| 0 <= m < j ==> !text_lt(key@, #[trigger] keys@[m]@),
                j < keys@.len() ==> text_lt(key@, keys@[j as int]@),
            decreases keys@.len() - j,
        {
            if text_less(key.as_str(), keys[j].as_str()) {
                break;
            }
            j = j + 1;
        }
        let h = (headers[i].0.clone(), headers[i].1.clone());
        assert(h == headers@[i as int]);
        let ghost out0 = out@;
        let ghost keys0 = keys@;
        let ghost p0 = p;
        proof {
            let ks = header_keys(out0);
            assert forall|m: int| 0 <= m < j implies !text_lt(key@, #[trigger] ks[m]) by {
                assert(keys0[m]@ == header_key(out0[m]));
            }
            if j < keys0.len() {
                assert(keys0[j as int]@ == ks[j as int]);
            }
            assert forall|m: int| 0 <= m < p0.len() implies #[trigger] p0[m] < i by {}
            lemma_insert_in_order(ks, p0, j as int, key@, i as int);
            out0.insert_ensures(j as int, h);
            assert(header_keys(out0.insert(j as int, h)) =~= ks.insert(j as int, key@));
        }
        out.insert(j, h);
        keys.insert(j, key);
        proof {
            p = p0.insert(j as int, i as int);
            p0.insert_ensures(j as int, i as int);
            out0.insert_ensures(j as int, h);
            keys0.insert_ensures(j as int, key);
            assert forall|k: int, l: int| 0 <= k < l < i + 1 implies p[k] != p[l] by {
                if k < j as int && l > j as int {
                    assert(p0[k] != p0[l - 1]);
                } else if k > j as int {
                    assert(p0[k - 1] != p0[l - 1]);
                } else if k < j as int && l < j as int {
                    assert(p0[k] != p0[l]);
                }
            }
            assert forall|k: int| 0 <= k < i + 1 implies #[trigger] keys@[k]@ == header_key(out@[k]) by {
                if k < j as int {
                    assert(keys0[k]@ == header_key(out0[k]));
                } else if k > j as int {
                    assert(keys0[k - 1]@ == header_key(out0[k - 1]));
                }
            }
            assert forall|k: int| 0 <= k < i + 1 implies #[trigger] out@[k] == headers@[p[k]] by {
                if k < j as int {
                    assert(out0[k] == headers@[p0[k]]);
                } else if k > j as int {
                    assert(out0[k - 1] == headers@[p0[k - 1]]);
                }
            }
        }
        i = i + 1;
    }
    proof {
        assert(sorted_by_name(headers@, out@, p));
    }
    out
}


/// The text of the header table: for each header but `status` (in any case), a line
/// `name:<TAB>value` with the name in cyan, then an empty line.
pub open spec fn header_lines(cs: ColorScheme, hs: Seq<(String, String)>) -> Seq<char>
    decreases hs.len(),
{
    if hs.len() == 0 {
        Seq::empty()
    } else {
        let h = hs.last();
        header_lines(cs, hs.drop_last()) + if header_key(h) == "status"@ {
            Seq::<char>::empty()
        } else {
            cs.styled(AnsiStyle::Cyan, h.0@) + ":\t"@ + h.1@ + "\n\n"@
        }
    }
}

/// The table of `headers` (each a name and the value as shown), in their order.
pub fn header_table(cs: &ColorScheme, headers: &Vec<(String, String)>) -> (r: String)
    ensures
        r@ == tab_aligned(header_lines(*cs, headers@)),
{
    let mut text = String::new();
    let mut i: usize = 0;
    assert(headers@.take(0) =~= Seq::<(String, String)>::empty());
    while i < headers.len()
        invariant
            i <= headers@.len(),
            text@ == header_lines(*cs, headers@.take(i as int)),
        decreases headers@.len() - i,
    {
        assert(headers@.take(i + 1).drop_last() =~= headers@.take(i as int));
        let key = to_lowercase(headers[i].0.as_str());
        if !str_equal(key.as_str(), "status") {
            let name = cs.cyan(headers[i].0.as_str());
            text.append(name.as_str());
            text.append(":\t");
            text.append(headers[i].1.as_str());
            text.append("\n\n");
        }
        i = i + 1;
    }
    assert(headers@.take(headers@.len() as int) =~= headers@);
    tab_align(text.as_str())
}

/// The headers of a response as the command shows them before the body: the table
/// of the headers ordered by their names in lower case.
pub fn header_text(cs: &ColorScheme, headers: &Vec<(String, String)>) -> (r: String)
    ensures
        exists|s: Seq<(String, String)>, p: Seq<int>|
            sorted_by_name(headers@, s, p) && r@ == tab_aligned(header_lines(*cs, s)),
{
    let sorted = sort_headers(headers);
    let r = header_table(cs, &sorted);
    proof {
        let p = choose|p: Seq<int>| sorted_by_name(headers@, sorted@, p);
        assert(sorted_by_name(headers@, sorted@, p) && r@ == tab_aligned(header_lines(*cs, sorted@)));
    }
    r
}

} // verus!
