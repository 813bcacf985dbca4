//! Keyboard input: the hotkey that detaches, and the backspace key.

use vstd::prelude::*;

verus! {

/// The byte that is sent for a byte of input: the control character `^H` is sent as `DEL`.
pub open spec fn sent_byte(b: u8) -> u8 {
    if b == 0x08 {
        0x7f
    } else {
        b
    }
}

/// The bytes that are sent for input.
pub open spec fn sent(input: Seq<u8>) -> Seq<u8> {
    input.map_values(|b: u8| sent_byte(b))
}

/// The byte that is sent for a byte of input. Terminals erase on `DEL`, while some clients send
/// `^H` for backspace.
pub fn normalize_stdin_byte(b: u8) -> (out: u8)
    ensures
        out == sent_byte(b),
{
    if b == 0x08 {
        0x7f
    } else {
        b
    }
}

/// What is still sent when the input ends: a Ctrl-a that the hotkey might have started with.
pub fn end_of_input(pending_ctrl_a: bool) -> (out: Vec<u8>)
    ensures
        out@ == if pending_ctrl_a {
            seq![0x01u8]
        } else {
            Seq::<u8>::empty()
        },
{
    let mut out: Vec<u8> = Vec::new();
    if pending_ctrl_a {
        out.push(0x01);
    }
    assert(out@ =~= if pending_ctrl_a {
        seq![0x01u8]
    } else {
        Seq::<u8>::empty()
    });
    out
}

/// Whether the detach hotkey, Ctrl-a and then `d` or `D`, stands at a position.
pub open spec fn hotkey_at(input: Seq<u8>, i: int) -> bool {
    &&& 0 <= i
    &&& i + 1 < input.len()
    &&& input[i] == 0x01
    &&& (input[i + 1] == 0x64 || input[i + 1] == 0x44)
}

/// Whether the first hotkey stands at a position.
pub open spec fn first_hotkey(input: Seq<u8>, i: int) -> bool {
    hotkey_at(input, i) && forall|j: int| 0 <= j < i ==> !#[trigger] hotkey_at(input, j)
}

/// Whether input ends with a Ctrl-a that may yet become the hotkey.
pub open spec fn ends_pending(input: Seq<u8>) -> bool {
    input.len() > 0 && input.last() == 0x01
}

/// What becomes of input: everything before the first hotkey is sent and the rest is dropped, or
/// everything is sent except a Ctrl-a at the end, which has to wait.
pub open spec fn is_outcome(input: Seq<u8>, detach: bool, out: Seq<u8>, pending: bool) -> bool {
    if detach {
        &&& exists|i: int| #[trigger] first_hotkey(input, i) && out == sent(input.take(i))
        &&& !pending
    } else {
        &&& forall|i: int| !#[trigger] hotkey_at(input, i)
        &&& pending == ends_pending(input)
        &&& out == if pending {
            sent(input.drop_last())
        } else {
            sent(input)
        }
    }
}

/// A chunk of input after a Ctrl-a that was held back, if one was.
pub open spec fn with_pending(pending: bool, chunk: Seq<u8>) -> Seq<u8> {
    if pending {
        seq![0x01u8] + chunk
    } else {
        chunk
    }
}

/// Handles a chunk of input, after a Ctrl-a that was held back or not: whether to detach, what to
/// send, and whether a Ctrl-a is held back now.
pub fn process_stdin_chunk_for_detach(chunk: &[u8], pending_ctrl_a: bool) -> (result: (
    bool,
    Vec<u8>,
    bool,
))
    ensures
        is_outcome(with_pending(pending_ctrl_a, chunk@), result.0, result.1@, result.2),
{
    let ghost input = with_pending(pending_ctrl_a, chunk@);
    let ghost lead: int = if pending_ctrl_a {
        1
    } else {
        0
    };
    let mut out: Vec<u8> = Vec::new();
    let mut pending = pending_ctrl_a;
    let mut i: usize = 0;
    assert(out@ =~= sent(input.take(0)));
    while i < chunk.len()
        invariant
            i <= chunk@.len(),
            input == with_pending(pending_ctrl_a, chunk@),
            lead == if pending_ctrl_a {
                1int
            } else {
                0int
            },
            forall|j: int| 0 <= j < lead + i - 1 ==> !#[trigger] hotkey_at(input, j),
            pending == ends_pending(input.take(lead + i)),
            out@ == sent(
                input.take(
                    if pending {
                        lead + i - 1
                    } else {
                        lead + i
                    },
                ),
            ),
        decreases chunk@.len() - i,
    {
        let b = chunk[i];
        let ghost n = lead + i;
        assert(input[n] == b);
        if pending {
            assert(input.take(n).last() == input[n - 1]);
            if b == 0x64 || b == 0x44 {
                assert(hotkey_at(input, n - 1));
                assert(first_hotkey(input, n - 1));
                return (true, out, false);
            }
            out.push(0x01);
            assert(out@ =~= sent(input.take(n)));
            pending = false;
        }
        assert(n > 0 ==> !hotkey_at(input, n - 1)) by {
            if n > 0 {
                assert(input.take(n).last() == input[n - 1]);
            }
        }
        assert(input.take(n + 1).last() == b);
        if b == 0x01 {
            pending = true;
        } else {
            out.push(normalize_stdin_byte(b));
            assert(out@ =~= sent(input.take(n + 1)));
        }
        i += 1;
    }
    assert(input.take(input.len() as int) =~= input);
    assert(pending ==> input.take(input.len() - 1) =~= input.drop_last());
    (false, out, pending)
}

/// There is at most one outcome.
proof fn lemma_outcome_unique(
    input: Seq<u8>,
    d1: bool,
    o1: Seq<u8>,
    p1: bool,
    d2: bool,
    o2: Seq<u8>,
    p2: bool,
)
    requires
        is_outcome(input, d1, o1, p1),
        is_outcome(input, d2, o2, p2),
    ensures
        d1 == d2 && o1 == o2 && p1 == p2,
{
    if d1 && d2 {
        let i = choose|i: int| #[trigger] first_hotkey(input, i) && o1 == sent(input.take(i));
        let j = choose|j: int| #[trigger] first_hotkey(input, j) && o2 == sent(input.take(j));
        if i < j {
            assert(!hotkey_at(input, i));
        } else if j < i {
            assert(!hotkey_at(input, j));
        }
    } else if d1 {
        let i = choose|i: int| #[trigger] first_hotkey(input, i) && o1 == sent(input.take(i));
        assert(!hotkey_at(input, i));
    } else if d2 {
        let i = choose|i: int| #[trigger] first_hotkey(input, i) && o2 == sent(input.take(i));
        assert(!hotkey_at(input, i));
    }
}

/// It does not matter how input is cut into chunks: handling two chunks one after the other sends
/// the same bytes and detaches at the same point as handling them at once.
pub proof fn law_chunks_do_not_matter(
    pending: bool,
    a: Seq<u8>,
    b: Seq<u8>,
    first: (bool, Seq<u8>, bool),
    second: (bool, Seq<u8>, bool),
    whole: (bool, Seq<u8>, bool),
)
    requires
        is_outcome(with_pending(pending, a), first.0, first.1, first.2),
        is_outcome(with_pending(first.2, b), second.0, second.1, second.2),
        is_outcome(with_pending(pending, a + b), whole.0, whole.1, whole.2),
    ensures
        whole == if first.0 {
            first
        } else {
            (second.0, first.1 + second.1, second.2)
        },
{
    let x = with_pending(pending, a);
    let y = with_pending(first.2, b);
    let all = with_pending(pending, a + b);
    assert(all =~= x + b);
    if first.0 {
        let i = choose|i: int| #[trigger] first_hotkey(x, i) && first.1 == sent(x.take(i));
        assert(hotkey_at(all, i));
        assert forall|j: int| 0 <= j < i implies !#[trigger] hotkey_at(all, j) by {
            assert(!hotkey_at(x, j));
        }
        assert(first_hotkey(all, i));
        assert(all.take(i) =~= x.take(i));
        lemma_outcome_unique(all, whole.0, whole.1, whole.2, first.0, first.1, first.2);
    } else {
        // The bytes that were handled for good, and what is left of `x` before `b`.
        let done: int = if first.2 {
            x.len() - 1
        } else {
            x.len() as int
        };
        assert(all.skip(done) =~= y);
        assert(first.1 =~= sent(all.take(done)));
        assert forall|j: int| 0 <= j < done implies !#[trigger] hotkey_at(all, j) by {
            assert(!hotkey_at(x, j));
            if j + 1 == x.len() {
                assert(x.last() == all[j]);
            }
        }
        let out = first.1 + second.1;
        if second.0 {
            let k = choose|k: int| #[trigger] first_hotkey(y, k) && second.1 == sent(y.take(k));
            assert(hotkey_at(all, done + k));
            assert forall|j: int| 0 <= j < done + k implies !#[trigger] hotkey_at(all, j) by {
                if j >= done {
                    assert(!hotkey_at(y, j - done));
                }
            }
            assert(first_hotkey(all, done + k));
            assert(out =~= sent(all.take(done + k)));
        } else {
            assert forall|j: int| !#[trigger] hotkey_at(all, j) by {
                if j >= done {
                    assert(!hotkey_at(y, j - done));
                }
            }
            if y.len() > 0 {
                assert(all.last() == y.last());
            } else {
                assert(all =~= x);
            }
            if second.2 {
                assert(out =~= sent(all.drop_last()));
            } else {
                assert(out =~= sent(all));
            }
        }
        lemma_outcome_unique(all, whole.0, whole.1, whole.2, second.0, out, second.2);
    }
}

/// What arrives at the shell is what was typed. Every byte is sent as it is, except that `^H` is
/// sent as `DEL`, in order and without a gap: all of them up to the hotkey if there is one, and all
/// of them but a Ctrl-a at the end otherwise. The client detaches exactly if there is a hotkey.
pub proof fn law_input_arrives(input: Seq<u8>, detach: bool, out: Seq<u8>, pending: bool)
    requires
        is_outcome(input, detach, out, pending),
    ensures
        detach <==> exists|i: int|
            0 <= i < input.len() - 1 && #[trigger] input[i] == 0x01 && (input[i + 1] == 0x64
                || input[i + 1] == 0x44),
        pending <==> !detach && input.len() > 0 && input[input.len() - 1] == 0x01,
        !detach ==> out.len() == input.len() - if pending {
            1int
        } else {
            0int
        },
        detach ==> {
            &&& out.len() < input.len() - 1
            &&& input[out.len() as int] == 0x01
            &&& input[out.len() as int + 1] == 0x64 || input[out.len() as int + 1] == 0x44
        },
        forall|i: int|
            0 <= i < out.len() ==> (#[trigger] out[i]) == if input[i] == 0x08 {
                0x7f
            } else {
                input[i]
            },
        detach ==> forall|i: int|
            0 <= i < out.len() && #[trigger] input[i] == 0x01 ==> input[i + 1] != 0x64 && input[i
                + 1] != 0x44,
{
    if detach {
        let k = choose|i: int| #[trigger] first_hotkey(input, i) && out == sent(input.take(i));
        assert(hotkey_at(input, k));
        assert(input[k] == 0x01);
        assert(out.len() == k);
        assert forall|i: int| 0 <= i < k && #[trigger] input[i] == 0x01 implies input[i + 1] != 0x64
            && input[i + 1] != 0x44 by {
            assert(!hotkey_at(input, i));
        }
    } else {
        assert forall|i: int| 0 <= i < input.len() - 1 && #[trigger] input[i] == 0x01 implies !(
        input[i + 1] == 0x64 || input[i + 1] == 0x44) by {
            assert(!hotkey_at(input, i));
        }
    }
}

/// Input without `^H` and without the hotkey arrives byte for byte, together with the Ctrl-a that
/// is held back until it is known what follows.
pub proof fn law_plain_input_arrives_unchanged(
    input: Seq<u8>,
    detach: bool,
    out: Seq<u8>,
    pending: bool,
)
    requires
        is_outcome(input, detach, out, pending),
        forall|i: int| 0 <= i < input.len() ==> #[trigger] input[i] != 0x08,
        forall|i: int|
            0 <= i < input.len() - 1 && #[trigger] input[i] == 0x01 ==> input[i + 1] != 0x64
                && input[i + 1] != 0x44,
    ensures
        !detach,
        out + (if pending {
            seq![0x01u8]
        } else {
            Seq::<u8>::empty()
        }) == input,
{
    law_input_arrives(input, detach, out, pending);
    assert(out + (if pending {
        seq![0x01u8]
    } else {
        Seq::<u8>::empty()
    }) =~= input);
}

/// A byte is sent as it is, except that `^H` is sent as `DEL`.
pub proof fn law_bytes_are_sent(b: u8)
    ensures
        b != 0x08 ==> sent_byte(b) == b,
        b == 0x08 ==> sent_byte(b) == 0x7f,
{
}

/// A Ctrl-a that was held back comes before what follows it, and nothing else is added.
pub proof fn law_held_back_comes_first(pending: bool, chunk: Seq<u8>)
    ensures
        pending ==> with_pending(pending, chunk).len() == chunk.len() + 1 && with_pending(
            pending,
            chunk,
        )[0] == 0x01 && with_pending(pending, chunk).skip(1) == chunk,
        !pending ==> with_pending(pending, chunk) == chunk,
{
    assert(pending ==> with_pending(pending, chunk).skip(1) =~= chunk);
}

} // verus!
