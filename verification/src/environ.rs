//! Environment sanitizer: removes the supervisor's own configuration
//! variables from the environment handed to the traced program.

use vstd::prelude::*;

verus! {

/// The reserved prefix (`MINISTRACE_`) that marks the supervisor's own
/// configuration variables.
pub open spec fn reserved_prefix() -> Seq<u8> {
    seq![('M' as u8), ('I' as u8), ('N' as u8), ('I' as u8), ('S' as u8), ('T' as u8), ('R' as u8), ('A' as u8), ('C' as u8), ('E' as u8), ('_' as u8)]
}

/// Whether a variable name begins with the reserved prefix.
pub open spec fn has_reserved_prefix(key: Seq<u8>) -> bool {
    key.len() >= reserved_prefix().len() && key.subrange(0, reserved_prefix().len() as int)
        == reserved_prefix()
}

/// A variable is kept when its name does not carry the reserved prefix.
pub open spec fn keeps(kv: (Seq<u8>, Seq<u8>)) -> bool {
    !has_reserved_prefix(kv.0)
}

/// The `key=value` byte line that a kept variable contributes.
pub open spec fn entry_line(key: Seq<u8>, value: Seq<u8>) -> Seq<u8> {
    key + seq![('=' as u8)] + value
}

/// A kept variable can be reconstructed only when its line is free of
/// embedded nul bytes.
pub open spec fn entry_ok(key: Seq<u8>, value: Seq<u8>) -> bool {
    !entry_line(key, value).contains(0u8)
}

/// Every kept variable of the input can be reconstructed.
pub open spec fn sanitize_ok(entries: Seq<(Seq<u8>, Seq<u8>)>) -> bool {
    forall|i: int|
        0 <= i < entries.len() && keeps(#[trigger] entries[i]) ==> entry_ok(
            entries[i].0,
            entries[i].1,
        )
}

/// The kept variables of the input, in input order.
pub open spec fn kept_entries(entries: Seq<(Seq<u8>, Seq<u8>)>) -> Seq<(Seq<u8>, Seq<u8>)> {
    entries.filter(|kv: (Seq<u8>, Seq<u8>)| keeps(kv))
}

/// The lines of the kept variables, in input order.
pub open spec fn kept_lines(entries: Seq<(Seq<u8>, Seq<u8>)>) -> Seq<Seq<u8>> {
    kept_entries(entries).map_values(|kv: (Seq<u8>, Seq<u8>)| entry_line(kv.0, kv.1))
}

/// What sanitizing an environment yields: the kept lines, or nothing when
/// some kept variable holds an embedded nul byte.
pub open spec fn spec_sanitize(entries: Seq<(Seq<u8>, Seq<u8>)>) -> Option<Seq<Seq<u8>>> {
    if sanitize_ok(entries) {
        Some(kept_lines(entries))
    } else {
        None
    }
}

/// The views of a list of raw environment pairs.
pub open spec fn pair_views(entries: Seq<(Vec<u8>, Vec<u8>)>) -> Seq<(Seq<u8>, Seq<u8>)> {
    entries.map_values(|kv: (Vec<u8>, Vec<u8>)| (kv.0@, kv.1@))
}

/// The views of a list of built lines.
pub open spec fn line_views(lines: Seq<Vec<u8>>) -> Seq<Seq<u8>> {
    lines.map_values(|l: Vec<u8>| l@)
}

/// Whether a variable name begins with the reserved prefix.
pub fn key_has_reserved_prefix(key: &Vec<u8>) -> (r: bool)
    ensures
        r == has_reserved_prefix(key@),
{
    let r = key.len() >= 11 && key[0] == ('M' as u8) && key[1] == ('I' as u8) && key[2] == ('N' as u8) && key[3]
        == ('I' as u8) && key[4] == ('S' as u8) && key[5] == ('T' as u8) && key[6] == ('R' as u8) && key[7] == ('A' as u8) && key[8]
        == ('C' as u8) && key[9] == ('E' as u8) && key[10] == ('_' as u8);
    proof {
        if key@.len() >= 11 {
            if r {
                assert(key@.subrange(0, 11) =~= reserved_prefix());
            } else {
                assert(key@.subrange(0, 11) != reserved_prefix()) by {
                    if key@.subrange(0, 11) == reserved_prefix() {
                        assert(forall|i: int|
                            0 <= i < 11 ==> #[trigger] key@[i] == reserved_prefix()[i]) by {
                            assert(forall|i: int|
                                0 <= i < 11 ==> #[trigger] key@[i] == key@.subrange(0, 11)[i]);
                        }
                    }
                }
            }
        }
    }
    r
}

/// Whether a byte string holds a nul byte.
pub fn contains_nul(bytes: &Vec<u8>) -> (r: bool)
    ensures
        r == bytes@.contains(0u8),
{
    let mut i: usize = 0;
    while i < bytes.len()
        invariant
            0 <= i <= bytes@.len(),
            forall|j: int| 0 <= j < i ==> #[trigger] bytes@[j] != 0u8,
        decreases bytes@.len() - i,
    {
        if bytes[i] == 0 {
            return true;
        }
        i += 1;
    }
    false
}

/// Builds the `key=value` line of one kept variable.
pub fn join_entry(key: &Vec<u8>, value: &Vec<u8>) -> (r: Vec<u8>)
    ensures
        r@ == entry_line(key@, value@),
{
    let mut line: Vec<u8> = Vec::new();
    proof {
        assert(line@ =~= key@.subrange(0, 0));
    }
    let mut i: usize = 0;
    while i < key.len()
        invariant
            0 <= i <= key@.len(),
            line@ == key@.subrange(0, i as int),
        decreases key@.len() - i,
    {
        line.push(key[i]);
        proof {
            assert(line@ =~= key@.subrange(0, i + 1));
        }
        i += 1;
    }
    proof {
        assert(line@ =~= key@);
    }
    line.push(('=' as u8));
    proof {
        assert(line@ =~= key@ + seq![('=' as u8)] + value@.subrange(0, 0));
    }
    let mut j: usize = 0;
    while j < value.len()
        invariant
            0 <= j <= value@.len(),
            line@ == key@ + seq![('=' as u8)] + value@.subrange(0, j as int),
        decreases value@.len() - j,
    {
        line.push(value[j]);
        proof {
            assert(line@ =~= key@ + seq![('=' as u8)] + value@.subrange(0, j + 1));
        }
        j += 1;
    }
    proof {
        assert(line@ =~= entry_line(key@, value@));
    }
    line
}

/// Removes every variable whose name carries the reserved prefix and joins
/// each remaining pair into one `key=value` byte line. Yields nothing
/// exactly when some kept variable holds an embedded nul byte, in which
/// case the caller must abort startup.
pub fn sanitize_environ(entries: &Vec<(Vec<u8>, Vec<u8>)>) -> (r: Option<Vec<Vec<u8>>>)
    ensures
        match r {
            Some(lines) => spec_sanitize(pair_views(entries@)) == Some(line_views(lines@)),
            None => spec_sanitize(pair_views(entries@)) is None,
        },
{
    let ghost views = pair_views(entries@);
    let mut out: Vec<Vec<u8>> = Vec::new();
    proof {
        reveal_with_fuel(Seq::<(Seq<u8>, Seq<u8>)>::filter, 2);
        assert(views.subrange(0, 0) =~= Seq::<(Seq<u8>, Seq<u8>)>::empty());
        assert(line_views(out@) =~= kept_lines(views.subrange(0, 0)));
    }
    let mut i: usize = 0;
    while i < entries.len()
        invariant
            0 <= i <= entries@.len(),
            views == pair_views(entries@),
            views.len() == entries@.len(),
            forall|k: int| 0 <= k < entries@.len() ==> #[trigger] views[k]
                == (entries@[k].0@, entries@[k].1@),
            sanitize_ok(views.subrange(0, i as int)),
            line_views(out@) == kept_lines(views.subrange(0, i as int)),
        decreases entries@.len() - i,
    {
        let ghost prev = views.subrange(0, i as int);
        let ghost cur = views.subrange(0, i as int + 1);
        proof {
            assert(cur.drop_last() =~= prev);
            assert(cur.last() == views[i as int]);
        }
        let kv = &entries[i];
        let kept = !key_has_reserved_prefix(&kv.0);
        let ghost out_before = out@;
        if kept {
            let line = join_entry(&kv.0, &kv.1);
            if contains_nul(&line) {
                proof {
                    assert(!entry_ok(views[i as int].0, views[i as int].1));
                    assert(!sanitize_ok(views));
                }
                return None;
            }
            out.push(line);
        }
        proof {
            reveal_with_fuel(Seq::<(Seq<u8>, Seq<u8>)>::filter, 2);
            assert(sanitize_ok(cur)) by {
                assert(forall|k: int| 0 <= k < i as int ==> #[trigger] cur[k] == prev[k]);
            }
            if kept {
                assert(kept_lines(cur) =~= kept_lines(prev).push(
                    entry_line(views[i as int].0, views[i as int].1),
                ));
                assert(line_views(out@) =~= line_views(out_before).push(out@.last()@));
            } else {
                assert(kept_lines(cur) =~= kept_lines(prev));
            }
        }
        i += 1;
    }
    proof {
        assert(views.subrange(0, entries@.len() as int) =~= views);
    }
    Some(out)
}

/// Every kept variable satisfies the keeping predicate.
proof fn lemma_kept_entries_keep(entries: Seq<(Seq<u8>, Seq<u8>)>, i: int)
    requires
        0 <= i < kept_entries(entries).len(),
    ensures
        keeps(kept_entries(entries)[i]),
    decreases entries.len(),
{
    reveal_with_fuel(Seq::<(Seq<u8>, Seq<u8>)>::filter, 2);
    if entries.len() > 0 {
        let prev = entries.drop_last();
        if i < kept_entries(prev).len() {
            lemma_kept_entries_keep(prev, i);
        }
    }
}

/// The joined line of a kept variable does not begin with the reserved
/// prefix: the prefix holds no separator byte, so a name shorter than the
/// prefix cannot fake it, and a longer name would have to carry it itself.
proof fn lemma_kept_line_free(key: Seq<u8>, value: Seq<u8>)
    requires
        !has_reserved_prefix(key),
    ensures
        !has_reserved_prefix(entry_line(key, value)),
{
    let line = entry_line(key, value);
    if has_reserved_prefix(line) {
        if key.len() >= 11 {
            assert(key.subrange(0, 11) =~= line.subrange(0, 11));
        } else {
            let j = key.len() as int;
            assert(line[j] == ('=' as u8));
            assert(line.subrange(0, 11)[j] == line[j]);
            assert(reserved_prefix()[0] != ('=' as u8));
            assert(reserved_prefix()[1] != ('=' as u8));
            assert(reserved_prefix()[2] != ('=' as u8));
            assert(reserved_prefix()[3] != ('=' as u8));
            assert(reserved_prefix()[4] != ('=' as u8));
            assert(reserved_prefix()[5] != ('=' as u8));
            assert(reserved_prefix()[6] != ('=' as u8));
            assert(reserved_prefix()[7] != ('=' as u8));
            assert(reserved_prefix()[8] != ('=' as u8));
            assert(reserved_prefix()[9] != ('=' as u8));
            assert(reserved_prefix()[10] != ('=' as u8));
        }
    }
}

/// Law: no variable whose name carries the reserved prefix is ever
/// present in a sanitized environment, for any input environment: every
/// line of the output comes from a kept variable, and none of those lines
/// begins with the reserved prefix.
pub proof fn lemma_sanitized_free_of_reserved(entries: Seq<(Seq<u8>, Seq<u8>)>, lines: Seq<Seq<u8>>)
    requires
        spec_sanitize(entries) == Some(lines),
    ensures
        forall|i: int| 0 <= i < lines.len() ==> !has_reserved_prefix(#[trigger] lines[i]),
{
    assert forall|i: int| 0 <= i < lines.len() implies !has_reserved_prefix(lines[i]) by {
        lemma_kept_entries_keep(entries, i);
        lemma_kept_line_free(kept_entries(entries)[i].0, kept_entries(entries)[i].1);
    }
}

} // verus!
