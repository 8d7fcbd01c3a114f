//! A minimal reader for the system version property list: flat
//! `<key>`/`<string>` pairs inside the first `<dict>` element.
use vstd::prelude::*;
use crate::config::{opt_chars, opt_view, same_chars};
use crate::text::{
    chars_between, chars_of, find, find_from, lines_of, occurs_at_exec, split_lines, starts_with,
    string_of, strip_suffixes, strip_suffixes_from, trim, trim_both, views,
};

verus! {

/// What the reader has seen after some lines: the product name and version
/// captured so far, and whether the next `<string>` line is owed to the name
/// or to the version.
pub struct PlistScan {
    pub name: Option<Seq<char>>,
    pub version: Option<Seq<char>>,
    pub want_name: bool,
    pub want_version: bool,
}

/// The reader's state before any line.
pub open spec fn plist_start() -> PlistScan {
    PlistScan { name: None, version: None, want_name: false, want_version: false }
}

/// The reader's state after one more line. `ProductVersion` only stands in
/// for `ProductUserVisibleVersion` while no version has been captured.
pub open spec fn plist_step(st: PlistScan, raw: Seq<char>) -> PlistScan {
    let line = trim(raw);
    if starts_with(line, "<key>"@) {
        let key = strip_suffixes(line.skip("<key>"@.len() as int), "</key>"@);
        if key == "ProductName"@ {
            PlistScan { want_name: true, ..st }
        } else if key == "ProductUserVisibleVersion"@ {
            PlistScan { want_version: true, ..st }
        } else if key == "ProductVersion"@ && st.version is None {
            PlistScan { want_version: true, ..st }
        } else {
            st
        }
    } else if starts_with(line, "<string>"@) {
        let value = strip_suffixes(line.skip("<string>"@.len() as int), "</string>"@);
        if st.want_name {
            PlistScan { name: Some(value), want_name: false, ..st }
        } else if st.want_version {
            PlistScan { version: Some(value), want_version: false, ..st }
        } else {
            st
        }
    } else {
        st
    }
}

/// The reader's state after `lines`.
pub open spec fn plist_scan(lines: Seq<Seq<char>>) -> PlistScan
    decreases lines.len(),
{
    if lines.len() == 0 {
        plist_start()
    } else {
        plist_step(plist_scan(lines.drop_last()), lines.last())
    }
}

/// The text between the first `<dict>` and the first `</dict>` after it.
pub open spec fn dict_body(data: Seq<char>) -> Option<Seq<char>> {
    match find_from(data, "<dict>"@, 0) {
        Some(s) => match find_from(data, "</dict>"@, s + "<dict>"@.len()) {
            Some(e) => Some(data.subrange(s + "<dict>"@.len(), e)),
            None => None,
        },
        None => None,
    }
}

/// The label made of a product name and a version, either of which may be
/// missing.
pub open spec fn os_label(name: Option<Seq<char>>, version: Option<Seq<char>>) -> Option<
    Seq<char>,
> {
    match (name, version) {
        (Some(n), Some(v)) => Some(n + seq![' '] + v),
        (Some(n), None) => Some(n),
        (None, Some(v)) => Some("Mac OS (Unknown) "@ + v),
        (None, None) => None,
    }
}

/// The label that a system version property list gives.
pub open spec fn plist_label(data: Seq<char>) -> Option<Seq<char>> {
    match dict_body(data) {
        Some(body) => {
            let st = plist_scan(lines_of(body));
            os_label(st.name, st.version)
        },
        None => None,
    }
}

/// The operating system's label out of a system version property list:
/// `"<name> <version>"`, the name alone, `"Mac OS (Unknown) <version>"`, or
/// `None` when neither was found.
pub fn distro_xml(data: &str) -> (r: Option<String>)
    ensures
        opt_view(r) == plist_label(data@),
{
    let text = chars_of(data);
    let open_dict = chars_of("<dict>");
    let close_dict = chars_of("</dict>");
    let start = match find(&text, &open_dict, 0) {
        Some(s) => s,
        None => {
            return None;
        },
    };
    let end = match find(&text, &close_dict, start + open_dict.len()) {
        Some(e) => e,
        None => {
            return None;
        },
    };
    let body = chars_between(&text, start + open_dict.len(), end);
    let lines = split_lines(&body);
    let key_open = chars_of("<key>");
    let key_close = chars_of("</key>");
    let string_open = chars_of("<string>");
    let string_close = chars_of("</string>");
    let product_name_key = chars_of("ProductName");
    let visible_key = chars_of("ProductUserVisibleVersion");
    let version_key = chars_of("ProductVersion");
    let mut product_name: Option<Vec<char>> = None;
    let mut user_visible_version: Option<Vec<char>> = None;
    let mut set_product_name = false;
    let mut set_user_visible_version = false;
    let mut i: usize = 0;
    assert(views(lines@).take(0) =~= Seq::<Seq<char>>::empty());
    while i < lines.len()
        invariant
            i <= lines.len(),
            key_open@ == "<key>"@,
            key_close@ == "</key>"@,
            string_open@ == "<string>"@,
            string_close@ == "</string>"@,
            product_name_key@ == "ProductName"@,
            visible_key@ == "ProductUserVisibleVersion"@,
            version_key@ == "ProductVersion"@,
            plist_scan(views(lines@).take(i as int)) == (PlistScan {
                name: opt_chars(product_name),
                version: opt_chars(user_visible_version),
                want_name: set_product_name,
                want_version: set_user_visible_version,
            }),
        decreases lines.len() - i,
    {
        assert(views(lines@).take(i + 1).drop_last() =~= views(lines@).take(i as int));
        assert(views(lines@).take(i + 1).last() == lines@[i as int]@);
        let line = trim_both(&lines[i], false);
        if occurs_at_exec(&line, &key_open, 0) {
            let key = strip_suffixes_from(&line, key_open.len(), &key_close);
            if same_chars(&key, &product_name_key) {
                set_product_name = true;
            } else if same_chars(&key, &visible_key) {
                set_user_visible_version = true;
            } else if same_chars(&key, &version_key) {
                if user_visible_version.is_none() {
                    set_user_visible_version = true;
                }
            }
        } else if occurs_at_exec(&line, &string_open, 0) {
            let value = strip_suffixes_from(&line, string_open.len(), &string_close);
            if set_product_name {
                product_name = Some(value);
                set_product_name = false;
            } else if set_user_visible_version {
                user_visible_version = Some(value);
                set_user_visible_version = false;
            }
        }
        i = i + 1;
    }
    assert(views(lines@).take(lines.len() as int) =~= views(lines@));
    let mut out: Vec<char> = Vec::new();
    match (product_name, user_visible_version) {
        (Some(mut n), Some(mut v)) => {
            out.append(&mut n);
            out.push(' ');
            out.append(&mut v);
        },
        (Some(mut n), None) => {
            out.append(&mut n);
        },
        (None, Some(mut v)) => {
            out = chars_of("Mac OS (Unknown) ");
            out.append(&mut v);
        },
        (None, None) => {
            return None;
        },
    }
    Some(string_of(&out))
}

} // verus!
