//! Pre-duplication validation for the process launcher: the argument
//! vector handed to the exec call is assembled and checked for embedded
//! nul bytes before the execution branch splits, since validation may
//! allocate and the new branch must not.

use vstd::prelude::*;

use crate::environ::contains_nul;

verus! {

/// What assembling the argument vector yields: the command itself
/// prepended as the conventional first argument, or nothing when the
/// command or any argument holds an embedded nul byte.
pub open spec fn spec_prepare_argv(command: Seq<u8>, args: Seq<Seq<u8>>) -> Option<Seq<Seq<u8>>> {
    if command.contains(0u8) || (exists|i: int|
        0 <= i < args.len() && (#[trigger] args[i]).contains(0u8)) {
        None
    } else {
        Some(seq![command] + args)
    }
}

/// The views of a list of byte strings.
pub open spec fn byte_views(items: Seq<Vec<u8>>) -> Seq<Seq<u8>> {
    items.map_values(|v: Vec<u8>| v@)
}

/// A verified byte-for-byte copy.
fn copy_bytes(bytes: &Vec<u8>) -> (r: Vec<u8>)
    ensures
        r@ == bytes@,
{
    let mut out: Vec<u8> = Vec::new();
    let mut i: usize = 0;
    while i < bytes.len()
        invariant
            0 <= i <= bytes@.len(),
            out@ == bytes@.subrange(0, i as int),
        decreases bytes@.len() - i,
    {
        out.push(bytes[i]);
        proof {
            assert(out@ =~= bytes@.subrange(0, i + 1));
        }
        i += 1;
    }
    proof {
        assert(out@ =~= bytes@);
    }
    out
}

/// Assembles the argument vector for the exec call: the command stands
/// first, the arguments follow in order, and every element is checked to
/// be free of embedded nul bytes. Yields nothing exactly when some
/// element holds one, in which case the caller must report the invalid
/// input and exit before any process duplication.
pub fn prepare_argv(command: &Vec<u8>, args: &Vec<Vec<u8>>) -> (r: Option<Vec<Vec<u8>>>)
    ensures
        match r {
            Some(argv) => spec_prepare_argv(command@, byte_views(args@)) == Some(
                byte_views(argv@),
            ),
            None => spec_prepare_argv(command@, byte_views(args@)) is None,
        },
{
    if contains_nul(command) {
        return None;
    }
    let mut argv: Vec<Vec<u8>> = Vec::new();
    argv.push(copy_bytes(command));
    let mut i: usize = 0;
    proof {
        assert(byte_views(argv@) =~= seq![command@] + byte_views(args@).subrange(0, 0));
    }
    while i < args.len()
        invariant
            0 <= i <= args@.len(),
            forall|k: int| 0 <= k < i ==> !(#[trigger] args@[k]@).contains(0u8),
            byte_views(argv@) == seq![command@] + byte_views(args@).subrange(0, i as int),
        decreases args@.len() - i,
    {
        let arg = &args[i];
        if contains_nul(arg) {
            proof {
                assert(byte_views(args@)[i as int].contains(0u8));
            }
            return None;
        }
        let copied = copy_bytes(arg);
        let ghost argv_before = argv@;
        argv.push(copied);
        proof {
            assert(argv@ == argv_before.push(copied));
            assert(byte_views(argv@) =~= byte_views(argv_before).push(copied@));
            assert(byte_views(args@).subrange(0, i as int + 1) =~= byte_views(args@).subrange(
                0,
                i as int,
            ).push(args@[i as int]@));
            assert(seq![command@] + byte_views(args@).subrange(0, i as int).push(args@[i as int]@)
                =~= (seq![command@] + byte_views(args@).subrange(0, i as int)).push(
                args@[i as int]@,
            ));
            assert(byte_views(argv@) =~= seq![command@] + byte_views(args@).subrange(
                0,
                i as int + 1,
            ));
        }
        i += 1;
    }
    proof {
        assert(byte_views(args@).subrange(0, args@.len() as int) =~= byte_views(args@));
        assert(forall|k: int|
            0 <= k < args@.len() ==> !(#[trigger] byte_views(args@)[k]).contains(0u8));
    }
    Some(argv)
}

} // verus!
