//! The user and host queries, computed from the raw fields that the
//! password database, the host name buffer and the system configuration
//! store hand out.
use vstd::prelude::*;
use crate::humanize::{bytes_view, fancy_fallback_os, humanize_os};
use crate::text::{display_form, string_from_os};

verus! {

/// The choice of a name from a password record: the login name, or the
/// full-name (comment) field, which when empty hands the login name on as a
/// fallback to humanize.
pub open spec fn record_name(full_name: bool, gecos: Seq<u8>, name: Seq<u8>) -> Result<
    Seq<u8>,
    Seq<u8>,
> {
    if full_name && gecos.len() == 0 {
        Err(name)
    } else if full_name {
        Ok(gecos)
    } else {
        Ok(name)
    }
}

/// Picks the real name (`full_name`) or the login name out of a password record
/// whose full-name field is `gecos` and whose login field is `name`.
pub fn name_from_record(full_name: bool, gecos: Vec<u8>, name: Vec<u8>) -> (r: Result<Vec<u8>, Vec<u8>>)
    ensures
        bytes_view(r) == record_name(full_name, gecos@, name@),
{
    if full_name {
        if gecos.len() == 0 {
            Err(name)
        } else {
            Ok(gecos)
        }
    } else {
        Ok(name)
    }
}

/// The user's login name, as text.
pub fn username(name: &Vec<u8>) -> (r: String)
    ensures
        r@ == display_form(name@),
{
    string_from_os(name)
}

/// The raw real name: the full-name field, or the humanized login name when
/// that field is empty.
pub open spec fn realname_bytes(gecos: Seq<u8>, name: Seq<u8>) -> Seq<u8> {
    humanize_os(record_name(true, gecos, name))
}

/// The user's real name, raw: the password record's full-name field
/// `gecos`, or when it is empty the login name `name` humanized.
pub fn realname_os(gecos: Vec<u8>, name: Vec<u8>) -> (r: Vec<u8>)
    ensures
        r@ == realname_bytes(gecos@, name@),
{
    fancy_fallback_os(name_from_record(true, gecos, name))
}

/// The user's real name, as text.
pub fn realname(gecos: Vec<u8>, name: Vec<u8>) -> (r: String)
    ensures
        r@ == display_form(realname_bytes(gecos@, name@)),
{
    let raw = realname_os(gecos, name);
    string_from_os(&raw)
}

/// The largest number of bytes that a host name can have.
pub const HOST_NAME_MAX: usize = 255;

/// The bytes of `b` before its first NUL byte (all of them if it has none).
pub open spec fn c_string(b: Seq<u8>) -> Seq<u8>
    decreases b.len(),
{
    if b.len() == 0 || b[0] == 0 {
        Seq::empty()
    } else {
        seq![b[0]] + c_string(b.drop_first())
    }
}

/// The host name held in a buffer that the system filled: at most
/// `HOST_NAME_MAX` bytes, ended by the first NUL byte.
pub open spec fn host_name_bytes(buffer: Seq<u8>) -> Seq<u8> {
    c_string(
        if buffer.len() <= HOST_NAME_MAX {
            buffer
        } else {
            buffer.take(HOST_NAME_MAX as int)
        },
    )
}

/// The raw host name out of the buffer that the system filled; a name that
/// does not fit is cut short, never refused.
pub fn hostname_os(buffer: &Vec<u8>) -> (r: Vec<u8>)
    ensures
        r@ == host_name_bytes(buffer@),
        r@.len() <= HOST_NAME_MAX,
{
    let bound: usize = if buffer.len() <= HOST_NAME_MAX {
        buffer.len()
    } else {
        HOST_NAME_MAX
    };
    let ghost b = buffer@.take(bound as int);
    assert(b =~= (if buffer.len() <= HOST_NAME_MAX {
        buffer@
    } else {
        buffer@.take(HOST_NAME_MAX as int)
    }));
    let mut out: Vec<u8> = Vec::new();
    let mut i: usize = 0;
    assert(b.skip(0) =~= b);
    while i < bound && buffer[i] != 0
        invariant
            i <= bound <= buffer.len(),
            bound <= HOST_NAME_MAX,
            b == buffer@.take(bound as int),
            out@ == b.take(i as int),
            c_string(b) == out@ + c_string(b.skip(i as int)),
        decreases bound - i,
    {
        assert(b.skip(i as int)[0] == buffer@[i as int]);
        assert(b.skip(i as int).drop_first() =~= b.skip(i + 1));
        assert(out@ + seq![buffer@[i as int]] + c_string(b.skip(i + 1)) =~= out@ + (seq![
            buffer@[i as int],
        ] + c_string(b.skip(i + 1))));
        out.push(buffer[i]);
        assert(b.take(i as int).push(b[i as int]) =~= b.take(i + 1));
        i = i + 1;
    }
    assert(c_string(b.skip(i as int)) =~= Seq::<u8>::empty());
    assert(out@ + Seq::<u8>::empty() =~= out@);
    out
}

/// The host name, as text.
pub fn hostname(buffer: &Vec<u8>) -> (r: String)
    ensures
        r@ == display_form(host_name_bytes(buffer@)),
{
    let raw = hostname_os(buffer);
    string_from_os(&raw)
}

/// The raw device name where the system configuration store keeps one
/// (`computer_name`): that name, or when it is empty the raw host name
/// humanized.
pub fn devicename_os(computer_name: Vec<u8>, host_name: Vec<u8>) -> (r: Vec<u8>)
    ensures
        r@ == humanize_os(
            if computer_name@.len() == 0 {
                Err(host_name@)
            } else {
                Ok(computer_name@)
            },
        ),
{
    let computer = if computer_name.len() == 0 {
        Err(host_name)
    } else {
        Ok(computer_name)
    };
    fancy_fallback_os(computer)
}

} // verus!
