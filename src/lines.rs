//! Cutting the interpreter's diagnostic stream into lines as its bytes
//! arrive, whatever the size of the pieces they arrive in.
//!
//! A line ends at a newline byte, which is not part of it. When the stream
//! ends in the middle of a line, that partial line is flushed as a line of
//! its own rather than dropped.
use vstd::prelude::*;
use vstd::string::*;

verus! {

/// The byte that ends a line.
pub const NEWLINE: u8 = 10;

/// The byte that a line written as `\r\n` keeps at its end.
pub const CARRIAGE_RETURN: u8 = 13;

/// The lines `ls`, each followed by a newline.
pub open spec fn joined(ls: Seq<Seq<u8>>) -> Seq<u8>
    decreases ls.len(),
{
    if ls.len() == 0 {
        seq![]
    } else {
        joined(ls.drop_last()) + ls.last() + seq![NEWLINE]
    }
}

/// Whether no line of `ls` holds a newline.
pub open spec fn newline_free(ls: Seq<Seq<u8>>) -> bool {
    forall|k: int, j: int| 0 <= k < ls.len() && 0 <= j < ls[k].len() ==> ls[k][j] != NEWLINE
}

/// The views of a vector of byte vectors.
pub open spec fn byte_lines(v: Seq<Vec<u8>>) -> Seq<Seq<u8>> {
    v.map_values(|l: Vec<u8>| l@)
}

/// The bytes of a sequence of pieces, one after another.
pub open spec fn flatten(pieces: Seq<Seq<u8>>) -> Seq<u8>
    decreases pieces.len(),
{
    if pieces.len() == 0 {
        seq![]
    } else {
        flatten(pieces.drop_last()) + pieces.last()
    }
}

/// Whether `ls` are the lines of the whole stream `s`: a stream that ends
/// in a newline (or is empty) is its lines each followed by a newline;
/// another is so, and then its non-empty partial last line.
pub open spec fn lines_of_stream(ls: Seq<Seq<u8>>, s: Seq<u8>) -> bool {
    &&& newline_free(ls)
    &&& (joined(ls) == s || (ls.len() > 0 && ls.last().len() > 0 && joined(ls.drop_last())
        + ls.last() == s))
}

/// The state of a stream being cut into lines: the bytes of the line not
/// yet ended.
pub struct LineSplitter {
    pending: Vec<u8>,
}

impl LineSplitter {
    /// The bytes received since the last newline.
    pub closed spec fn pending(&self) -> Seq<u8> {
        self.pending@
    }

    /// No newline is ever held back.
    pub closed spec fn wf(&self) -> bool {
        forall|j: int| 0 <= j < self.pending@.len() ==> self.pending@[j] != NEWLINE
    }

    /// A splitter at the start of a stream.
    pub fn new() -> (r: LineSplitter)
        ensures
            r.wf(),
            r.pending() == Seq::<u8>::empty(),
    {
        LineSplitter { pending: Vec::new() }
    }

    /// Takes the next piece of the stream and hands out, in order, every
    /// line that it completes.
    pub fn push(&mut self, chunk: &[u8]) -> (lines: Vec<Vec<u8>>)
        requires
            old(self).wf(),
        ensures
            final(self).wf(),
            newline_free(byte_lines(lines@)),
            joined(byte_lines(lines@)) + final(self).pending() == old(self).pending() + chunk@,
    {
        let mut lines: Vec<Vec<u8>> = Vec::new();
        let mut i: usize = 0;
        while i < chunk.len()
            invariant
                i <= chunk@.len(),
                self.wf(),
                newline_free(byte_lines(lines@)),
                joined(byte_lines(lines@)) + self.pending() == old(self).pending() + chunk@.take(
                    i as int,
                ),
            decreases chunk@.len() - i,
        {
            let b = chunk[i];
            let ghost before = byte_lines(lines@);
            let ghost held = self.pending@;
            if b == NEWLINE {
                let mut line: Vec<u8> = Vec::new();
                std::mem::swap(&mut line, &mut self.pending);
                lines.push(line);
                proof {
                    assert(byte_lines(lines@) =~= before.push(held));
                    assert(before.push(held).drop_last() =~= before);
                    assert(chunk@.take(i as int + 1) =~= chunk@.take(i as int).push(b));
                    assert(joined(byte_lines(lines@)) =~= joined(before) + held + seq![NEWLINE]);
                    assert(self.pending@ =~= Seq::<u8>::empty());
                    assert(joined(byte_lines(lines@)) + self.pending@ =~= (joined(before) + held)
                        + seq![b]);
                }
            } else {
                self.pending.push(b);
                proof {
                    assert(chunk@.take(i as int + 1) =~= chunk@.take(i as int).push(b));
                    assert(self.pending@ =~= held.push(b));
                    assert(joined(byte_lines(lines@)) + self.pending@ =~= (joined(before) + held)
                        + seq![b]);
                }
            }
            i = i + 1;
        }
        assert(chunk@.take(chunk@.len() as int) =~= chunk@);
        lines
    }

    /// Ends the stream: hands out the partial last line, if any bytes
    /// followed the last newline.
    pub fn finish(self) -> (r: Option<Vec<u8>>)
        requires
            self.wf(),
        ensures
            match r {
                Some(l) => l@ == self.pending() && l@.len() > 0,
                None => self.pending().len() == 0,
            },
            r matches Some(l) ==> newline_free(seq![l@]),
    {
        if self.pending.len() == 0 {
            None
        } else {
            Some(self.pending)
        }
    }
}

/// Cuts a whole stream, received as `pieces`, into its lines: every byte
/// is in exactly one line, in the order received, however the stream was
/// divided into pieces.
pub fn split_stream(pieces: &Vec<Vec<u8>>) -> (lines: Vec<Vec<u8>>)
    ensures
        lines_of_stream(byte_lines(lines@), flatten(byte_lines(pieces@))),
{
    let mut splitter = LineSplitter::new();
    let mut lines: Vec<Vec<u8>> = Vec::new();
    let mut k: usize = 0;
    while k < pieces.len()
        invariant
            k <= pieces@.len(),
            splitter.wf(),
            newline_free(byte_lines(lines@)),
            joined(byte_lines(lines@)) + splitter.pending() == flatten(
                byte_lines(pieces@).take(k as int),
            ),
        decreases pieces@.len() - k,
    {
        let ghost before = byte_lines(lines@);
        let ghost held = splitter.pending();
        let mut got = splitter.push(pieces[k].as_slice());
        let ghost got_lines = byte_lines(got@);
        lines.append(&mut got);
        proof {
            assert(byte_lines(lines@) =~= before + got_lines);
            lemma_joined_append(before, got_lines);
            let ps = byte_lines(pieces@).take(k as int + 1);
            assert(ps.drop_last() =~= byte_lines(pieces@).take(k as int));
            assert(ps.last() == pieces@[k as int]@);
            assert(flatten(ps) == flatten(ps.drop_last()) + ps.last());
            assert(joined(got_lines) + splitter.pending() == held + ps.last());
            assert(joined(byte_lines(lines@)) + splitter.pending() =~= joined(before) + (joined(
                got_lines,
            ) + splitter.pending()));
            assert(joined(byte_lines(lines@)) + splitter.pending() =~= (joined(before) + held)
                + ps.last());
        }
        k = k + 1;
    }
    assert(byte_lines(pieces@).take(pieces@.len() as int) =~= byte_lines(pieces@));
    let ghost complete = byte_lines(lines@);
    match splitter.finish() {
        Some(last) => {
            lines.push(last);
            proof {
                assert(byte_lines(lines@).drop_last() =~= complete);
                let ls = byte_lines(lines@);
                assert forall|a: int, j: int| 0 <= a < ls.len() && 0 <= j < ls[a].len() implies ls[a][j]
                    != NEWLINE by {
                    if a < complete.len() {
                        assert(ls[a] == complete[a]);
                    } else {
                        assert(ls[a] == seq![last@][0]);
                    }
                }
            }
        },
        None => {
            assert(joined(complete) + Seq::<u8>::empty() =~= joined(complete));
        },
    }
    lines
}

/// The tag that sets the interpreter's diagnostics apart in the log:
/// `[Python] `.
pub open spec fn source_tag() -> Seq<u8> {
    seq![91u8, 80u8, 121u8, 116u8, 104u8, 111u8, 110u8, 93u8, 32u8]
}

/// A line without the carriage return that a `\r\n` ending leaves on it.
pub open spec fn without_cr(line: Seq<u8>) -> Seq<u8> {
    if line.len() > 0 && line.last() == CARRIAGE_RETURN {
        line.drop_last()
    } else {
        line
    }
}

/// The log text of one diagnostic line: the source tag, then the line
/// without a trailing carriage return.
pub fn tag_line(line: &[u8]) -> (r: Vec<u8>)
    ensures
        r@ == source_tag() + without_cr(line@),
{
    let mut r: Vec<u8> = vec![91u8, 80u8, 121u8, 116u8, 104u8, 111u8, 110u8, 93u8, 32u8];
    let mut n = line.len();
    if n > 0 && line[n - 1] == CARRIAGE_RETURN {
        n = n - 1;
    }
    assert(r@ =~= source_tag());
    let mut i: usize = 0;
    while i < n
        invariant
            n <= line@.len(),
            i <= n,
            without_cr(line@) == line@.take(n as int),
            r@ == source_tag() + line@.take(i as int),
        decreases n - i,
    {
        r.push(line[i]);
        assert(line@.take(i as int + 1) =~= line@.take(i as int).push(line@[i as int]));
        assert(r@ =~= source_tag() + line@.take(i as int + 1));
        i = i + 1;
    }
    r
}

/// Joining two runs of lines is joining each and putting them together.
proof fn lemma_joined_append(a: Seq<Seq<u8>>, b: Seq<Seq<u8>>)
    ensures
        joined(a + b) == joined(a) + joined(b),
    decreases b.len(),
{
    if b.len() == 0 {
        assert(a + b =~= a);
        assert(joined(a) + joined(b) =~= joined(a));
    } else {
        lemma_joined_append(a, b.drop_last());
        assert((a + b).drop_last() =~= a + b.drop_last());
        assert((a + b).last() == b.last());
    }
}

/// Joined lines are empty exactly when there are none, and otherwise end
/// in a newline.
proof fn lemma_joined_ends(ls: Seq<Seq<u8>>)
    ensures
        ls.len() == 0 <==> joined(ls).len() == 0,
        ls.len() > 0 ==> joined(ls).last() == NEWLINE,
{
}

/// Lines followed by a partial line can be read back only one way.
proof fn lemma_split_unique(x1: Seq<Seq<u8>>, l1: Seq<u8>, x2: Seq<Seq<u8>>, l2: Seq<u8>)
    requires
        newline_free(x1),
        newline_free(x2),
        newline_free(seq![l1]),
        newline_free(seq![l2]),
        joined(x1) + l1 == joined(x2) + l2,
    ensures
        x1 == x2,
        l1 == l2,
    decreases x1.len() + x2.len(),
{
    let j1 = joined(x1);
    let j2 = joined(x2);
    let all = j1 + l1;
    lemma_joined_ends(x1);
    lemma_joined_ends(x2);
    if j1.len() < j2.len() {
        let k = j2.len() - 1;
        assert(all.len() == j2.len() + l2.len());
        assert(all[k] == j2[k]);
        assert(j1.len() <= k < all.len());
        assert((j1 + l1)[k] == l1[k - j1.len()]);
        assert(seq![l1][0] == l1);
        assert(false);
    } else if j2.len() < j1.len() {
        let k = j1.len() - 1;
        assert(all.len() == j1.len() + l1.len());
        assert((j2 + l2)[k] == j1[k]);
        assert(j2.len() <= k < all.len());
        assert((j2 + l2)[k] == l2[k - j2.len()]);
        assert(seq![l2][0] == l2);
        assert(false);
    }
    assert(j1 =~= all.subrange(0, j1.len() as int));
    assert(j2 =~= (j2 + l2).subrange(0, j2.len() as int));
    assert(l1 =~= all.subrange(j1.len() as int, all.len() as int));
    assert(l2 =~= (j2 + l2).subrange(j2.len() as int, all.len() as int));
    if x1.len() > 0 {
        let d1 = x1.drop_last();
        let d2 = x2.drop_last();
        assert(newline_free(d1)) by {
            assert forall|a: int, j: int| 0 <= a < d1.len() && 0 <= j < d1[a].len() implies d1[a][j]
                != NEWLINE by {
                assert(d1[a] == x1[a]);
            }
        }
        assert(newline_free(d2)) by {
            assert forall|a: int, j: int| 0 <= a < d2.len() && 0 <= j < d2[a].len() implies d2[a][j]
                != NEWLINE by {
                assert(d2[a] == x2[a]);
            }
        }
        assert(newline_free(seq![x1.last()])) by {
            assert(seq![x1.last()][0] == x1[x1.len() - 1]);
        }
        assert(newline_free(seq![x2.last()])) by {
            assert(seq![x2.last()][0] == x2[x2.len() - 1]);
        }
        let p1 = joined(d1) + x1.last();
        let p2 = joined(d2) + x2.last();
        assert(j1 == p1 + seq![NEWLINE]);
        assert(j2 == p2 + seq![NEWLINE]);
        assert(p1 =~= j1.drop_last());
        assert(p2 =~= j2.drop_last());
        lemma_split_unique(d1, x1.last(), d2, x2.last());
        assert(x1 =~= d1.push(x1.last()));
        assert(x2 =~= d2.push(x2.last()));
    }
}

/// A stream has one way only of being read as lines: whatever pieces it
/// arrived in, the same lines come out, in the same order.
pub proof fn lines_of_stream_unique(a: Seq<Seq<u8>>, b: Seq<Seq<u8>>, s: Seq<u8>)
    requires
        lines_of_stream(a, s),
        lines_of_stream(b, s),
    ensures
        a == b,
{
    lemma_joined_ends(a);
    lemma_joined_ends(b);
    let e = Seq::<u8>::empty();
    assert(newline_free(seq![e]));
    if joined(a) == s && joined(b) == s {
        assert(joined(a) + e =~= joined(b) + e);
        lemma_split_unique(a, e, b, e);
    } else if joined(a) == s {
        let l = b.last();
        assert(s.last() == l.last());
        assert(l[l.len() - 1] == b[b.len() - 1][l.len() - 1]);
    } else if joined(b) == s {
        let l = a.last();
        assert(s.last() == l.last());
        assert(l[l.len() - 1] == a[a.len() - 1][l.len() - 1]);
    } else {
        let da = a.drop_last();
        let db = b.drop_last();
        assert(newline_free(da)) by {
            assert forall|i: int, j: int| 0 <= i < da.len() && 0 <= j < da[i].len() implies da[i][j]
                != NEWLINE by {
                assert(da[i] == a[i]);
            }
        }
        assert(newline_free(db)) by {
            assert forall|i: int, j: int| 0 <= i < db.len() && 0 <= j < db[i].len() implies db[i][j]
                != NEWLINE by {
                assert(db[i] == b[i]);
            }
        }
        assert(newline_free(seq![a.last()])) by {
            assert(seq![a.last()][0] == a[a.len() - 1]);
        }
        assert(newline_free(seq![b.last()])) by {
            assert(seq![b.last()][0] == b[b.len() - 1]);
        }
        lemma_split_unique(da, a.last(), db, b.last());
        assert(a =~= da.push(a.last()));
        assert(b =~= db.push(b.last()));
    }
}

} // verus!
