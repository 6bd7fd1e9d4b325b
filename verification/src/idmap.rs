//! The identity-mapping file: its path and its one-line contents.
//!
//! The launcher, still outside the new user namespace but privileged over the
//! spawned process, writes a single line of the form
//! `<namespace-id> <host-id> <count>` to the per-process mapping file
//! (`/proc/<pid>/uid_map` or `/proc/<pid>/gid_map`).  This design maps the
//! container-root identity `0` onto one host identity, with range length `1`.

use vstd::prelude::*;

verus! {

/// The decimal digits of `n` in ASCII, most significant first, no sign and
/// no leading zeros (a lone `0` for zero).
pub open spec fn decimal_digits(n: nat) -> Seq<u8>
    decreases n,
{
    if n < 10 {
        seq![(48 + n) as u8]
    } else {
        decimal_digits(n / 10).push((48 + n % 10) as u8)
    }
}

/// The mapping line `0 <host_id> 1`: namespace-local id 0 (container root),
/// the given host id, and range length 1.
pub open spec fn spec_map_line(host_id: nat) -> Seq<u8> {
    seq![48u8, 32u8] + decimal_digits(host_id) + seq![32u8, 49u8]
}

/// `/proc/` in ASCII.
pub open spec fn proc_prefix() -> Seq<u8> {
    seq![47u8, 112u8, 114u8, 111u8, 99u8, 47u8]
}

/// `/uid_map` in ASCII.
pub open spec fn uid_map_suffix() -> Seq<u8> {
    seq![47u8, 117u8, 105u8, 100u8, 95u8, 109u8, 97u8, 112u8]
}

/// `/gid_map` in ASCII.
pub open spec fn gid_map_suffix() -> Seq<u8> {
    seq![47u8, 103u8, 105u8, 100u8, 95u8, 109u8, 97u8, 112u8]
}

/// The path of the user-identity mapping file of process `pid`.
pub open spec fn spec_uid_map_path(pid: nat) -> Seq<u8> {
    proc_prefix() + decimal_digits(pid) + uid_map_suffix()
}

/// The path of the group-identity mapping file of process `pid`.
pub open spec fn spec_gid_map_path(pid: nat) -> Seq<u8> {
    proc_prefix() + decimal_digits(pid) + gid_map_suffix()
}

/// Appends the decimal digits of `n` to `out`.
fn push_decimal(n: u32, out: &mut Vec<u8>)
    ensures
        final(out)@ == old(out)@ + decimal_digits(n as nat),
    decreases n,
{
    if n >= 10 {
        push_decimal(n / 10, out);
    }
    let d: u8 = (n % 10) as u8 + 48;
    out.push(d);
    proof {
        if n < 10 {
            assert(old(out)@ + decimal_digits(n as nat) =~= old(out)@.push(d));
        } else {
            assert(old(out)@ + decimal_digits(n as nat / 10) + seq![d]
                =~= old(out)@ + decimal_digits(n as nat));
        }
    }
}

/// The decimal digits of `n` as a byte vector.
pub fn decimal_bytes(n: u32) -> (r: Vec<u8>)
    ensures
        r@ == decimal_digits(n as nat),
{
    let mut out: Vec<u8> = Vec::new();
    push_decimal(n, &mut out);
    proof {
        assert(Seq::<u8>::empty() + decimal_digits(n as nat) =~= decimal_digits(n as nat));
    }
    out
}

/// The contents written to the mapping file: maps namespace-local id 0 to
/// `host_id` with range length 1.
pub fn map_line(host_id: u32) -> (r: Vec<u8>)
    ensures
        r@ == spec_map_line(host_id as nat),
{
    let mut out: Vec<u8> = Vec::new();
    out.push(48);
    out.push(32);
    push_decimal(host_id, &mut out);
    out.push(32);
    out.push(49);
    proof {
        assert(out@ =~= spec_map_line(host_id as nat));
    }
    out
}

/// Pushes the ASCII bytes of `/proc/<pid>` to a fresh vector; shared prefix
/// of the two mapping-file paths.
fn proc_pid_prefix(pid: i32) -> (r: Vec<u8>)
    requires
        1 <= pid,
    ensures
        r@ == proc_prefix() + decimal_digits(pid as nat),
{
    let mut out: Vec<u8> = Vec::new();
    out.push(47);
    out.push(112);
    out.push(114);
    out.push(111);
    out.push(99);
    out.push(47);
    proof {
        assert(out@ =~= proc_prefix());
    }
    push_decimal(pid as u32, &mut out);
    out
}

/// The path of `pid`'s user-identity mapping file, `/proc/<pid>/uid_map`.
pub fn uid_map_path(pid: i32) -> (r: Vec<u8>)
    requires
        1 <= pid,
    ensures
        r@ == spec_uid_map_path(pid as nat),
{
    let mut out = proc_pid_prefix(pid);
    out.push(47);
    out.push(117);
    out.push(105);
    out.push(100);
    out.push(95);
    out.push(109);
    out.push(97);
    out.push(112);
    proof {
        assert(out@ =~= spec_uid_map_path(pid as nat));
    }
    out
}

/// The path of `pid`'s group-identity mapping file, `/proc/<pid>/gid_map`.
pub fn gid_map_path(pid: i32) -> (r: Vec<u8>)
    requires
        1 <= pid,
    ensures
        r@ == spec_gid_map_path(pid as nat),
{
    let mut out = proc_pid_prefix(pid);
    out.push(47);
    out.push(103);
    out.push(105);
    out.push(100);
    out.push(95);
    out.push(109);
    out.push(97);
    out.push(112);
    proof {
        assert(out@ =~= spec_gid_map_path(pid as nat));
    }
    out
}

} // verus!
