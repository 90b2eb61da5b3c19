//! Assembly of raw file content into lines: complete lines are handed out
//! as soon as their terminator arrives, a partial one is held until then
//! or until the content ends.

use vstd::prelude::*;

verus! {

/// The line terminator.
pub const NEWLINE: u8 = 10;

/// `s` holds no line terminator.
pub open spec fn no_newline(s: Seq<u8>) -> bool {
    forall|i: int| 0 <= i < s.len() ==> s[i] != NEWLINE
}

/// `l` is one complete line: text without a terminator, then one.
pub open spec fn is_line(l: Seq<u8>) -> bool {
    l.len() > 0 && l.last() == NEWLINE && no_newline(l.drop_last())
}

/// The contents of a list of byte vectors.
pub open spec fn contents(v: Seq<Vec<u8>>) -> Seq<Seq<u8>> {
    v.map_values(|b: Vec<u8>| b@)
}

/// The pieces one after another.
pub open spec fn joined<A>(pieces: Seq<Seq<A>>) -> Seq<A>
    decreases pieces.len(),
{
    if pieces.len() == 0 {
        Seq::empty()
    } else {
        joined(pieces.drop_last()) + pieces.last()
    }
}

/// Content read so far that does not yet end in a line terminator.
pub struct LineBuffer {
    pending: Vec<u8>,
}

impl View for LineBuffer {
    type V = Seq<u8>;

    closed spec fn view(&self) -> Seq<u8> {
        self.pending@
    }
}

impl LineBuffer {
    /// What is held never holds a line terminator.
    #[verifier::type_invariant]
    spec fn wf(&self) -> bool {
        no_newline(self.pending@)
    }

    /// A buffer holding nothing.
    pub fn new() -> (r: LineBuffer)
        ensures
            r@ == Seq::<u8>::empty(),
    {
        LineBuffer { pending: Vec::new() }
    }

    /// Adds `chunk` to what is held and hands out, in order, every line it
    /// completes, each with its terminator. Nothing is lost or repeated:
    /// the lines followed by what is still held are the old content
    /// followed by the chunk.
    pub fn push(&mut self, chunk: &[u8]) -> (r: Vec<Vec<u8>>)
        ensures
            joined(contents(r@)) + final(self)@ == old(self)@ + chunk@,
            forall|i: int| 0 <= i < r@.len() ==> is_line(#[trigger] r@[i]@),
            no_newline(final(self)@),
    {
        proof {
            use_type_invariant(&*self);
        }
        let mut pending: Vec<u8> = Vec::new();
        std::mem::swap(&mut pending, &mut self.pending);
        let ghost start = pending@;
        let mut out: Vec<Vec<u8>> = Vec::new();
        let mut i: usize = 0;
        while i < chunk.len()
            invariant
                0 <= i <= chunk@.len(),
                joined(contents(out@)) + pending@ == start + chunk@.take(i as int),
                forall|j: int| 0 <= j < out@.len() ==> is_line(#[trigger] out@[j]@),
                no_newline(pending@),
            decreases chunk@.len() - i,
        {
            let b = chunk[i];
            let ghost before = pending@;
            pending.push(b);
            assert(start + chunk@.take(i as int + 1) =~= start + chunk@.take(i as int) + seq![b]);
            if b == NEWLINE {
                let mut line: Vec<u8> = Vec::new();
                std::mem::swap(&mut line, &mut pending);
                let ghost prev = out@;
                out.push(line);
                proof {
                    assert(line@.drop_last() =~= before);
                    assert(contents(out@).drop_last() =~= contents(prev));
                    assert(joined(contents(out@)) + pending@ =~= joined(contents(prev))
                        + before + seq![b]);
                }
            } else {
                assert(joined(contents(out@)) + pending@ =~= joined(contents(out@)) + before
                    + seq![b]);
            }
            i = i + 1;
        }
        assert(chunk@.take(chunk@.len() as int) =~= chunk@);
        self.pending = pending;
        out
    }

    /// At the end of the content: what is still held, a last line without a
    /// terminator, unless nothing is.
    pub fn finish(self) -> (r: Option<Vec<u8>>)
        ensures
            r is None <==> self@.len() == 0,
            r matches Some(v) ==> v@ == self@,
    {
        if self.pending.len() == 0 {
            None
        } else {
            Some(self.pending)
        }
    }
}

/// All the lines of `content` in order, each with its terminator, the last
/// one without when the content does not end in one. Together they are the
/// content, each line exactly once.
pub fn split_lines(content: &[u8]) -> (r: Vec<Vec<u8>>)
    ensures
        joined(contents(r@)) == content@,
        forall|i: int| 0 <= i < r@.len() - 1 ==> is_line(#[trigger] r@[i]@),
        r@.len() > 0 ==> r@.last()@.len() > 0 && no_newline(r@.last()@.drop_last()),
{
    let mut buffer = LineBuffer::new();
    let mut out = buffer.push(content);
    let ghost complete = out@;
    assert(Seq::<u8>::empty() + content@ =~= content@);
    match buffer.finish() {
        Some(last) => {
            out.push(last);
            proof {
                assert(contents(out@).drop_last() =~= contents(complete));
                let l = out@.last()@;
                assert(forall|k: int| 0 <= k < l.drop_last().len() ==> l.drop_last()[k] == l[k]);
            }
        },
        None => {
            assert(joined(contents(out@)) =~= joined(contents(out@)) + Seq::<u8>::empty());
            proof {
                if out@.len() > 0 {
                    assert(is_line(out@[out@.len() - 1]@));
                }
            }
        },
    }
    out
}

} // verus!
