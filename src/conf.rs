//! The configuration tree and its lookups: keys, keyword keys such as
//! `unit 01`, and durations such as `10 ms`.

use vstd::prelude::*;
use crate::text::{decimal_spec, keyword_of, keyword_title, parse_decimal, to_chars};

verus! {

/// A configuration value, as read from the configuration file.
#[derive(Debug)]
pub enum ConfValue {
    Text(String),
    Number(u64),
    Section(Vec<ConfEntry>),
    /// Any other kind of value.
    Other,
}

/// One `key: value` entry of a section.
#[derive(Debug)]
pub struct ConfEntry {
    pub key: String,
    pub value: ConfValue,
}

/// The value of the first entry of `es` whose key is `key`.
pub open spec fn find_key(es: Seq<ConfEntry>, key: Seq<char>) -> Option<ConfValue>
    decreases es.len(),
{
    if es.len() == 0 {
        None
    } else if es[0].key@ == key {
        Some(es[0].value)
    } else {
        find_key(es.drop_first(), key)
    }
}

/// The title and value of the first entry of `es` whose key is the keyword
/// `name` followed by a title.
pub open spec fn find_keyword(es: Seq<ConfEntry>, name: Seq<char>) -> Option<(Seq<char>, ConfValue)>
    decreases es.len(),
{
    if es.len() == 0 {
        None
    } else if keyword_title(es[0].key@, name) is Some {
        Some((keyword_title(es[0].key@, name)->Some_0, es[0].value))
    } else {
        find_keyword(es.drop_first(), name)
    }
}

/// The index of the first entry whose key is `key`.
pub fn key_index(es: &Vec<ConfEntry>, key: &str) -> (r: Option<usize>)
    ensures
        r matches Some(i) ==> i < es@.len() && find_key(es@, key@) == Some(es@[i as int].value),
        r is None ==> find_key(es@, key@) is None,
{
    let k = to_chars(key);
    let mut i: usize = 0;
    assert(es@.subrange(0, es@.len() as int) =~= es@);
    while i < es.len()
        invariant
            i <= es@.len(),
            k@ == key@,
            find_key(es@, key@) == find_key(es@.subrange(i as int, es@.len() as int), key@),
        decreases es@.len() - i,
    {
        let ghost rest = es@.subrange(i as int, es@.len() as int);
        assert(rest.drop_first() =~= es@.subrange(i as int + 1, es@.len() as int));
        assert(rest[0] == es@[i as int]);
        let ek = to_chars(es[i].key.as_str());
        if crate::text::same_chars(&ek, &k) {
            return Some(i);
        }
        i = i + 1;
    }
    None
}

/// The index and title of the first entry whose key is the keyword `name`
/// followed by a title.
pub fn keyword_index(es: &Vec<ConfEntry>, name: &str) -> (r: Option<(usize, Vec<char>)>)
    ensures
        r matches Some((i, t)) ==> i < es@.len() && find_keyword(es@, name@) == Some(
            (t@, es@[i as int].value),
        ),
        r is None ==> find_keyword(es@, name@) is None,
{
    let n = to_chars(name);
    let mut i: usize = 0;
    assert(es@.subrange(0, es@.len() as int) =~= es@);
    while i < es.len()
        invariant
            i <= es@.len(),
            n@ == name@,
            find_keyword(es@, name@) == find_keyword(
                es@.subrange(i as int, es@.len() as int),
                name@,
            ),
        decreases es@.len() - i,
    {
        let ghost rest = es@.subrange(i as int, es@.len() as int);
        assert(rest.drop_first() =~= es@.subrange(i as int + 1, es@.len() as int));
        assert(rest[0] == es@[i as int]);
        let ek = to_chars(es[i].key.as_str());
        if let Some(t) = keyword_of(&ek, &n) {
            return Some((i, t));
        }
        i = i + 1;
    }
    None
}

/// The milliseconds that a duration such as `10 ms` or `3 s` stands for.
pub open spec fn duration_ms_spec(s: Seq<char>) -> Option<int> {
    if s.len() >= 3 && s.subrange(s.len() - 3, s.len() as int) == seq![' ', 'm', 's'] {
        decimal_spec(s.subrange(0, s.len() - 3), u64::MAX as int)
    } else if s.len() >= 2 && s.subrange(s.len() - 2, s.len() as int) == seq![' ', 's'] {
        match decimal_spec(s.subrange(0, s.len() - 2), (u64::MAX / 1000) as int) {
            Some(v) => Some(v * 1000),
            None => None,
        }
    } else {
        None
    }
}

fn prefix(s: &Vec<char>, n: usize) -> (r: Vec<char>)
    requires
        n <= s@.len(),
    ensures
        r@ == s@.subrange(0, n as int),
{
    let mut r: Vec<char> = Vec::new();
    let mut i: usize = 0;
    while i < n
        invariant
            i <= n <= s@.len(),
            r@ == s@.subrange(0, i as int),
        decreases n - i,
    {
        r.push(s[i]);
        i = i + 1;
        assert(r@ =~= s@.subrange(0, i as int));
    }
    r
}

/// Reads a duration such as `10 ms` or `3 s` as milliseconds.
pub fn parse_duration_ms(s: &str) -> (r: Option<u64>)
    ensures
        r matches Some(v) ==> duration_ms_spec(s@) == Some(v as int),
        r is None ==> duration_ms_spec(s@) is None,
{
    let c = to_chars(s);
    let n = c.len();
    if n >= 3 && c[n - 3] == ' ' && c[n - 2] == 'm' && c[n - 1] == 's' {
        assert(c@.subrange(n - 3, n as int) =~= seq![' ', 'm', 's']);
        parse_decimal(&prefix(&c, n - 3), u64::MAX)
    } else if n >= 2 && c[n - 2] == ' ' && c[n - 1] == 's' {
        assert(c@.subrange(n - 2, n as int) =~= seq![' ', 's']);
        assert(n < 3 || c@.subrange(n - 3, n as int) != seq![' ', 'm', 's']) by {
            if n >= 3 {
                assert(c@.subrange(n - 3, n as int)[1] == c@[n - 2]);
            }
        }
        match parse_decimal(&prefix(&c, n - 2), u64::MAX / 1000) {
            Some(v) => Some(v * 1000),
            None => None,
        }
    } else {
        assert(n < 3 || c@.subrange(n - 3, n as int) != seq![' ', 'm', 's']) by {
            if n >= 3 && c@.subrange(n - 3, n as int) == seq![' ', 'm', 's'] {
                assert(c@.subrange(n - 3, n as int)[0] == c@[n - 3]);
                assert(c@.subrange(n - 3, n as int)[1] == c@[n - 2]);
                assert(c@.subrange(n - 3, n as int)[2] == c@[n - 1]);
            }
        }
        assert(n < 2 || c@.subrange(n - 2, n as int) != seq![' ', 's']) by {
            if n >= 2 && c@.subrange(n - 2, n as int) == seq![' ', 's'] {
                assert(c@.subrange(n - 2, n as int)[0] == c@[n - 2]);
                assert(c@.subrange(n - 2, n as int)[1] == c@[n - 1]);
            }
        }
        None
    }
}

/// The optional start wait: a `wait-started` text entry that reads as a
/// duration; anything else leaves it unset.
pub open spec fn wait_started_spec(es: Seq<ConfEntry>) -> Option<u64> {
    match find_key(es, "wait-started"@) {
        Some(ConfValue::Text(t)) => match duration_ms_spec(t@) {
            Some(v) => Some(v as u64),
            None => None,
        },
        _ => None,
    }
}

/// Reads the optional start wait of a service section.
pub fn read_wait_started(conf: &Vec<ConfEntry>) -> (r: Option<u64>)
    ensures
        r == wait_started_spec(conf@),
{
    match key_index(conf, "wait-started") {
        Some(i) => match &conf[i].value {
            ConfValue::Text(t) => parse_duration_ms(t.as_str()),
            _ => None,
        },
        None => None,
    }
}

} // verus!
