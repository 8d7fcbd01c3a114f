//! Lookups in line-oriented `KEY=VALUE` configuration text, such as the
//! OS-release and machine-info files.
use vstd::prelude::*;
use crate::humanize::{fancy_fallback, humanize};
use crate::text::{
    chars_between, chars_of, find, find_from, lines_of, occurs_at_exec, split_lines,
    string_of, trim_both, unquote, views,
};

verus! {

/// The key of a configuration line: what stands before its first `=`, or the
/// whole line when it has none.
pub open spec fn key_of(line: Seq<char>) -> Seq<char> {
    match find_from(line, seq!['='], 0) {
        Some(i) => line.take(i),
        None => line,
    }
}

/// The value of a configuration line: what follows its first `=`, if any.
pub open spec fn value_of(line: Seq<char>) -> Option<Seq<char>> {
    match find_from(line, seq!['='], 0) {
        Some(i) => Some(line.skip(i + 1)),
        None => None,
    }
}

/// The text that an optional string holds.
pub open spec fn opt_view(s: Option<String>) -> Option<Seq<char>> {
    match s {
        Some(t) => Some(t@),
        None => None,
    }
}

/// The text that an optional character vector holds.
pub open spec fn opt_chars(s: Option<Vec<char>>) -> Option<Seq<char>> {
    match s {
        Some(t) => Some(t@),
        None => None,
    }
}

/// Whether `a` and `b` hold the same characters.
pub fn same_chars(a: &Vec<char>, b: &Vec<char>) -> (r: bool)
    ensures
        r == (a@ == b@),
{
    if a.len() != b.len() {
        return false;
    }
    let r = occurs_at_exec(a, b, 0);
    assert(a@.subrange(0, a@.len() as int) =~= a@);
    r
}

/// Splits a configuration line into its key and, where it has an `=`, its
/// value.
pub fn split_entry(line: &Vec<char>) -> (r: (Vec<char>, Option<Vec<char>>))
    ensures
        r.0@ == key_of(line@),
        opt_chars(r.1) == value_of(line@),
{
    let eq: Vec<char> = vec!['='];
    assert(eq@ =~= seq!['=']);
    match find(line, &eq, 0) {
        Some(i) => {
            let key = chars_between(line, 0, i);
            let value = chars_between(line, i + 1, line.len());
            assert(key@ =~= line@.take(i as int));
            assert(value@ =~= line@.skip(i + 1));
            (key, Some(value))
        },
        None => {
            let key = chars_between(line, 0, line.len());
            assert(key@ =~= line@);
            (key, None)
        },
    }
}

/// The distribution label of OS-release text, scanning `lines` with
/// `fallback` as the `NAME` value seen so far: the first `PRETTY_NAME`
/// value, else the last `NAME` value. A `PRETTY_NAME` or `NAME` line without
/// a value ends the scan with no label.
pub open spec fn release_scan(lines: Seq<Seq<char>>, fallback: Option<Seq<char>>) -> Option<
    Seq<char>,
>
    decreases lines.len(),
{
    if lines.len() == 0 {
        fallback
    } else {
        let line = lines[0];
        if key_of(line) == "PRETTY_NAME"@ {
            match value_of(line) {
                Some(v) => Some(unquote(v)),
                None => None,
            }
        } else if key_of(line) == "NAME"@ {
            match value_of(line) {
                Some(v) => release_scan(lines.drop_first(), Some(unquote(v))),
                None => None,
            }
        } else {
            release_scan(lines.drop_first(), fallback)
        }
    }
}

/// The distribution label that OS-release text gives.
pub open spec fn distro_label(text: Seq<char>) -> Option<Seq<char>> {
    release_scan(lines_of(text), None)
}

/// Scanning OS-release lines of which none has the key `NAME` or
/// `PRETTY_NAME` keeps the fallback that the scan started with.
pub proof fn lemma_release_scan_without_names(lines: Seq<Seq<char>>, fallback: Option<Seq<char>>)
    requires
        forall|i: int|
            0 <= i < lines.len() ==> key_of(#[trigger] lines[i]) != "NAME"@ && key_of(lines[i])
                != "PRETTY_NAME"@,
    ensures
        release_scan(lines, fallback) == fallback,
    decreases lines.len(),
{
    if lines.len() > 0 {
        assert forall|i: int| 0 <= i < lines.drop_first().len() implies key_of(
            #[trigger] lines.drop_first()[i],
        ) != "NAME"@ && key_of(lines.drop_first()[i]) != "PRETTY_NAME"@ by {
            assert(lines.drop_first()[i] == lines[i + 1]);
        }
        assert(key_of(lines[0]) != "NAME"@);
        lemma_release_scan_without_names(lines.drop_first(), fallback);
    }
}

/// OS-release text in which no line has the key `NAME` or `PRETTY_NAME`
/// gives no distribution label: the answer is absent, not an error.
pub proof fn lemma_distro_absent_without_names(os_release: Seq<char>)
    requires
        forall|i: int|
            0 <= i < lines_of(os_release).len() ==> key_of(#[trigger] lines_of(os_release)[i])
                != "NAME"@ && key_of(lines_of(os_release)[i]) != "PRETTY_NAME"@,
    ensures
        distro_label(os_release) is None,
{
    lemma_release_scan_without_names(lines_of(os_release), None);
}

/// The distribution's name out of the text of the OS-release file: its
/// `PRETTY_NAME`, else its `NAME`, with surrounding quotes removed; `None`
/// when it has neither.
pub fn distro(os_release: &str) -> (r: Option<String>)
    ensures
        opt_view(r) == distro_label(os_release@),
{
    let text = chars_of(os_release);
    let lines = split_lines(&text);
    let pretty_key = chars_of("PRETTY_NAME");
    let name_key = chars_of("NAME");
    let mut fallback: Option<Vec<char>> = None;
    let mut i: usize = 0;
    assert(views(lines@).skip(0) =~= views(lines@));
    while i < lines.len()
        invariant
            i <= lines.len(),
            views(lines@) == lines_of(os_release@),
            pretty_key@ == "PRETTY_NAME"@,
            name_key@ == "NAME"@,
            distro_label(os_release@) == release_scan(
                views(lines@).skip(i as int),
                opt_chars(fallback),
            ),
        decreases lines.len() - i,
    {
        let ghost rest = views(lines@).skip(i as int);
        assert(rest[0] == lines@[i as int]@);
        assert(rest.drop_first() =~= views(lines@).skip(i + 1));
        let (key, value) = split_entry(&lines[i]);
        if same_chars(&key, &pretty_key) {
            match value {
                Some(v) => {
                    let label = trim_both(&v, true);
                    return Some(string_of(&label));
                },
                None => {
                    return None;
                },
            }
        } else if same_chars(&key, &name_key) {
            match value {
                Some(v) => {
                    fallback = Some(trim_both(&v, true));
                },
                None => {
                    return None;
                },
            }
        }
        i = i + 1;
    }
    assert(views(lines@).skip(i as int) =~= Seq::<Seq<char>>::empty());
    match fallback {
        Some(v) => Some(string_of(&v)),
        None => None,
    }
}

/// The first `PRETTY_HOSTNAME` value among `lines`, quotes removed.
pub open spec fn pretty_hostname(lines: Seq<Seq<char>>) -> Option<Seq<char>>
    decreases lines.len(),
{
    if lines.len() == 0 {
        None
    } else if key_of(lines[0]) == "PRETTY_HOSTNAME"@ && value_of(lines[0]) is Some {
        Some(unquote(value_of(lines[0])->0))
    } else {
        pretty_hostname(lines.drop_first())
    }
}

/// The device name where a machine-info file may give one: its
/// `PRETTY_HOSTNAME`, else the host name humanized.
pub open spec fn device_label(machine_info: Option<Seq<char>>, host: Seq<char>) -> Seq<char> {
    match machine_info {
        Some(t) => match pretty_hostname(lines_of(t)) {
            Some(v) => v,
            None => humanize(host),
        },
        None => humanize(host),
    }
}

/// The device name out of the machine-info file's text (`None` where it
/// could not be read) and the host name.
pub fn devicename(machine_info: Option<&str>, host: &str) -> (r: String)
    ensures
        r@ == device_label(
            match machine_info {
                Some(t) => Some(t@),
                None => None,
            },
            host@,
        ),
{
    if let Some(info) = machine_info {
        let text = chars_of(info);
        let lines = split_lines(&text);
        let wanted = chars_of("PRETTY_HOSTNAME");
        let mut i: usize = 0;
        assert(views(lines@).skip(0) =~= views(lines@));
        while i < lines.len()
            invariant
                i <= lines.len(),
                machine_info == Some(info),
                views(lines@) == lines_of(info@),
                wanted@ == "PRETTY_HOSTNAME"@,
                pretty_hostname(lines_of(info@)) == pretty_hostname(views(lines@).skip(i as int)),
            decreases lines.len() - i,
        {
            let ghost rest = views(lines@).skip(i as int);
            assert(rest[0] == lines@[i as int]@);
            assert(rest.drop_first() =~= views(lines@).skip(i + 1));
            let (key, value) = split_entry(&lines[i]);
            if same_chars(&key, &wanted) {
                if let Some(v) = value {
                    let label = trim_both(&v, true);
                    assert(value_of(rest[0]) == Some(v@));
                    assert(pretty_hostname(rest) == Some(label@));
                    return string_of(&label);
                }
            }
            i = i + 1;
        }
        assert(views(lines@).skip(i as int) =~= Seq::<Seq<char>>::empty());
    }
    fancy_fallback(Ok(host))
}

} // verus!
