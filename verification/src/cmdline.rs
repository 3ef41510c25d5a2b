//! Command-line formatter: turns a raw nul-separated argument buffer, as a
//! process-information pseudo-file exposes it, into one shell-escaped,
//! loggable line.

use vstd::prelude::*;

verus! {

/// What permissive decoding of a byte string yields: invalid sequences are
/// replaced, the decoding never fails.
pub uninterp spec fn lossy_decoded(bytes: Seq<u8>) -> Seq<char>;

/// The shell-escaped form of one token: either the token itself when no
/// character needs escaping, or an escaped quoted string.
pub uninterp spec fn bash_quoted(text: Seq<char>) -> Seq<u8>;

/// Relies on String::from_utf8_lossy: the result depends on the bytes
/// alone; invalid sequences are replaced with the replacement character
/// and the call never fails.
#[verifier::external_body]
fn decode_token(bytes: &Vec<u8>) -> (r: String)
    ensures
        r@ == lossy_decoded(bytes@),
{
    String::from_utf8_lossy(bytes.as_slice()).into_owned()
}

/// Relies on shell_quote's Bash quoting: the escaped form depends on the
/// characters alone, and survives round-trip through a shell.
#[verifier::external_body]
fn quote_token(text: &String) -> (r: Vec<u8>)
    ensures
        r@ == bash_quoted(text@),
{
    shell_quote::Bash::quote_vec(text.as_str())
}

/// The nul-terminated tokens of a raw buffer, reading from `buffer` with
/// `cur` as the partial token read so far: each nul byte closes one token,
/// and a trailing run without a terminator is dropped.
pub open spec fn tokens_from(buffer: Seq<u8>, cur: Seq<u8>) -> Seq<Seq<u8>>
    decreases buffer.len(),
{
    if buffer.len() == 0 {
        Seq::empty()
    } else if buffer[0] == 0u8 {
        seq![cur] + tokens_from(buffer.drop_first(), Seq::empty())
    } else {
        tokens_from(buffer.drop_first(), cur.push(buffer[0]))
    }
}

/// The tokens of a raw nul-separated buffer.
pub open spec fn spec_tokens(buffer: Seq<u8>) -> Seq<Seq<u8>> {
    tokens_from(buffer, Seq::empty())
}

/// The escaped form of every token of the buffer.
pub open spec fn quoted_tokens(buffer: Seq<u8>) -> Seq<Seq<u8>> {
    spec_tokens(buffer).map_values(|t: Seq<u8>| bash_quoted(lossy_decoded(t)))
}

/// The parts joined with one space between neighbours.
pub open spec fn join_with_space(parts: Seq<Seq<u8>>) -> Seq<u8>
    decreases parts.len(),
{
    if parts.len() == 0 {
        Seq::empty()
    } else if parts.len() == 1 {
        parts[0]
    } else {
        parts[0] + seq![(' ' as u8)] + join_with_space(parts.drop_first())
    }
}

/// The formatted command line of a raw buffer: every token decoded
/// permissively, shell-escaped, joined with single spaces, and the joined
/// bytes decoded permissively into one line.
pub open spec fn spec_cmdline_text(buffer: Seq<u8>) -> Seq<char> {
    lossy_decoded(join_with_space(quoted_tokens(buffer)))
}

/// Joining after appending one part extends the joined bytes by that part,
/// with a separating space unless it is the first.
proof fn lemma_join_push(parts: Seq<Seq<u8>>, part: Seq<u8>)
    ensures
        join_with_space(parts.push(part)) == if parts.len() == 0 {
            part
        } else {
            join_with_space(parts) + seq![(' ' as u8)] + part
        },
    decreases parts.len(),
{
    if parts.len() == 0 {
        assert(parts.push(part).len() == 1);
        assert(join_with_space(parts.push(part)) == parts.push(part)[0]);
    } else {
        lemma_join_push(parts.drop_first(), part);
        assert(parts.push(part).drop_first() =~= parts.drop_first().push(part));
        if parts.len() == 1 {
            assert(parts.drop_first().len() == 0);
            assert(join_with_space(parts) == parts[0]);
            assert(join_with_space(parts.push(part)) == parts[0] + seq![(' ' as u8)] + part);
        } else {
            assert(join_with_space(parts.push(part)) == parts[0] + seq![(' ' as u8)]
                + join_with_space(parts.drop_first().push(part)));
            assert(parts[0] + seq![(' ' as u8)] + (join_with_space(parts.drop_first()) + seq![
                (' ' as u8)
            ] + part) =~= (parts[0] + seq![(' ' as u8)] + join_with_space(parts.drop_first()))
                + seq![(' ' as u8)] + part);
        }
    }
}

/// Splits a raw buffer on nul boundaries into its tokens, dropping an
/// unterminated trailing run.
pub fn split_tokens(buffer: &Vec<u8>) -> (r: Vec<Vec<u8>>)
    ensures
        r@.map_values(|t: Vec<u8>| t@) == spec_tokens(buffer@),
{
    let ghost full = buffer@;
    let mut out: Vec<Vec<u8>> = Vec::new();
    let mut cur: Vec<u8> = Vec::new();
    let mut i: usize = 0;
    proof {
        assert(full.subrange(0, full.len() as int) =~= full);
    }
    while i < buffer.len()
        invariant
            0 <= i <= full.len(),
            full == buffer@,
            out@.map_values(|t: Vec<u8>| t@) + tokens_from(full.subrange(i as int, full.len() as int), cur@)
                =~= spec_tokens(full),
        decreases full.len() - i,
    {
        let ghost rest = full.subrange(i as int, full.len() as int);
        let ghost rest2 = full.subrange(i as int + 1, full.len() as int);
        proof {
            assert(rest.drop_first() =~= rest2);
            assert(rest[0] == full[i as int]);
        }
        let b = buffer[i];
        let ghost out_before = out@;
        let ghost cur_before = cur@;
        if b == 0 {
            out.push(cur);
            cur = Vec::new();
            proof {
                assert(tokens_from(rest, cur_before) == seq![cur_before] + tokens_from(
                    rest2,
                    Seq::empty(),
                ));
                assert(out@.map_values(|t: Vec<u8>| t@) =~= out_before.map_values(
                    |t: Vec<u8>| t@,
                ).push(cur_before));
                assert(out@.map_values(|t: Vec<u8>| t@) + tokens_from(rest2, cur@)
                    =~= out_before.map_values(|t: Vec<u8>| t@) + tokens_from(rest, cur_before));
            }
        } else {
            cur.push(b);
            proof {
                assert(cur@ =~= cur_before.push(b));
                assert(tokens_from(rest, cur_before) == tokens_from(rest2, cur_before.push(b)));
            }
        }
        i += 1;
    }
    proof {
        assert(full.subrange(full.len() as int, full.len() as int) =~= Seq::<u8>::empty());
        assert(out@.map_values(|t: Vec<u8>| t@) =~= spec_tokens(full));
    }
    out
}

/// Formats a raw nul-separated argument buffer into one shell-escaped
/// line: tokens are decoded permissively, escaped so that spaces, quotes
/// and special characters survive round-trip through a shell, and joined
/// with single spaces.
pub fn format_cmdline(buffer: &Vec<u8>) -> (r: String)
    ensures
        r@ == spec_cmdline_text(buffer@),
{
    let tokens = split_tokens(buffer);
    let ghost quoted = quoted_tokens(buffer@);
    let mut joined: Vec<u8> = Vec::new();
    let mut i: usize = 0;
    proof {
        assert(quoted.subrange(0, 0) =~= Seq::<Seq<u8>>::empty());
    }
    while i < tokens.len()
        invariant
            0 <= i <= tokens@.len(),
            tokens@.map_values(|t: Vec<u8>| t@) == spec_tokens(buffer@),
            quoted == quoted_tokens(buffer@),
            quoted.len() == tokens@.len(),
            forall|k: int| 0 <= k < tokens@.len() ==> #[trigger] quoted[k] == bash_quoted(
                lossy_decoded(tokens@[k]@),
            ),
            joined@ == join_with_space(quoted.subrange(0, i as int)),
        decreases tokens@.len() - i,
    {
        let ghost joined_before = joined@;
        if i > 0 {
            joined.push(' ' as u8);
        }
        let text = decode_token(&tokens[i]);
        let part = quote_token(&text);
        let mut k: usize = 0;
        let ghost part_view = part@;
        proof {
            assert(joined@ =~= (if i > 0 {
                joined_before + seq![(' ' as u8)]
            } else {
                joined_before
            }) + part_view.subrange(0, 0));
        }
        while k < part.len()
            invariant
                0 <= k <= part@.len(),
                part@ == part_view,
                joined@ == (if i > 0 {
                    joined_before + seq![(' ' as u8)]
                } else {
                    joined_before
                }) + part_view.subrange(0, k as int),
            decreases part@.len() - k,
        {
            joined.push(part[k]);
            proof {
                assert(joined@ =~= (if i > 0 {
                    joined_before + seq![(' ' as u8)]
                } else {
                    joined_before
                }) + part_view.subrange(0, k as int + 1));
            }
            k += 1;
        }
        proof {
            lemma_join_push(quoted.subrange(0, i as int), quoted[i as int]);
            assert(quoted.subrange(0, i as int).push(quoted[i as int]) =~= quoted.subrange(
                0,
                i as int + 1,
            ));
            assert(part_view.subrange(0, part_view.len() as int) =~= part_view);
            assert(part_view == quoted[i as int]);
            assert(joined@ =~= join_with_space(quoted.subrange(0, i as int + 1)));
        }
        i += 1;
    }
    proof {
        assert(quoted.subrange(0, quoted.len() as int) =~= quoted);
    }
    decode_token(&joined)
}

} // verus!
