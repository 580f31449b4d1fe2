use vstd::prelude::*;

verus! {

/// A completed line with its carriage return dropped: when a line
/// terminator closes a line, one immediately preceding CR byte goes with
/// it, so a CRLF pair counts as a single terminator.
pub open spec fn chomp_cr(line: Seq<u8>) -> Seq<u8> {
    if line.len() > 0 && line.last() == 13u8 {
        line.drop_last()
    } else {
        line
    }
}

/// All lines of the stream so far: every terminated line (LF or CRLF
/// terminated, terminator removed), plus the currently open (possibly
/// empty) unterminated remainder as last element. The remainder keeps its
/// bytes as they are: a CR is dropped only when a LF completes the line.
pub open spec fn split_all(s: Seq<u8>) -> Seq<Seq<u8>>
    decreases s.len(),
{
    if s.len() == 0 {
        seq![Seq::<u8>::empty()]
    } else if s.last() == 10u8 {
        let p = split_all(s.drop_last());
        p.update(p.len() - 1, chomp_cr(p.last())).push(Seq::<u8>::empty())
    } else {
        let p = split_all(s.drop_last());
        p.update(p.len() - 1, p.last().push(s.last()))
    }
}

/// The lines of a whole byte stream, split on the line terminator (a CRLF
/// pair counting as one terminator); a partial final line with no
/// terminator is kept, bytes unchanged, when non-empty.
pub open spec fn split_lines_spec(s: Seq<u8>) -> Seq<Seq<u8>> {
    let a = split_all(s);
    if a.last().len() == 0 {
        a.drop_last()
    } else {
        a
    }
}

fn copy_bytes(v: &Vec<u8>) -> (r: Vec<u8>)
    ensures
        r@ == v@,
{
    let mut r: Vec<u8> = Vec::new();
    let mut i: usize = 0;
    while i < v.len()
        invariant
            i <= v@.len(),
            r@ == v@.take(i as int),
        decreases v@.len() - i,
    {
        r.push(v[i]);
        proof {
            assert(v@.take(i + 1) =~= v@.take(i as int).push(v@[i as int]));
        }
        i = i + 1;
    }
    proof {
        assert(v@.take(v@.len() as int) =~= v@);
    }
    r
}

/// Incremental line splitter for one instance's output pipe: fed with raw
/// chunks in arrival order, it hands out each line as soon as its
/// terminator arrives and retains the unterminated remainder.
pub struct LineBuffer {
    buf: Vec<u8>,
}

impl LineBuffer {
    /// The unterminated remainder held back so far.
    pub closed spec fn pending(&self) -> Seq<u8> {
        self.buf@
    }

    /// The remainder never holds a line terminator.
    pub closed spec fn wf(&self) -> bool {
        forall|i: int| 0 <= i < self.buf@.len() ==> self.buf@[i] != 10u8
    }

    /// An empty splitter, ready for the first chunk.
    pub fn new() -> (r: Self)
        ensures
            r.pending() == Seq::<u8>::empty(),
            r.wf(),
    {
        LineBuffer { buf: Vec::new() }
    }

    /// Consume one chunk: every line completed by it is returned, in
    /// arrival order, each with its terminator (LF, or a CRLF pair)
    /// removed; the new remainder is what follows the last terminator
    /// seen so far.
    pub fn feed(&mut self, chunk: &Vec<u8>) -> (lines: Vec<Vec<u8>>)
        requires
            old(self).wf(),
        ensures
            final(self).wf(),
            lines.deep_view().push(final(self).pending()) == split_all(
                old(self).pending() + chunk@,
            ),
    {
        let ghost s0 = self.buf@;
        let mut lines: Vec<Vec<u8>> = Vec::new();
        proof {
            assert(s0 + chunk@.take(0) =~= s0);
            lemma_split_all_prefix_free(s0);
            assert(lines.deep_view().push(self.buf@) =~~= split_all(s0 + chunk@.take(0)));
        }
        let mut i: usize = 0;
        while i < chunk.len()
            invariant
                i <= chunk@.len(),
                self.wf(),
                lines.deep_view().push(self.buf@) == split_all(s0 + chunk@.take(i as int)),
            decreases chunk@.len() - i,
        {
            let ghost pre_lines = lines.deep_view();
            let ghost pre_buf = self.buf@;
            let b = chunk[i];
            proof {
                assert((s0 + chunk@.take(i + 1)).drop_last() =~= s0 + chunk@.take(i as int));
                assert((s0 + chunk@.take(i + 1)).last() == chunk@[i as int]);
            }
            if b == 10 {
                let mut complete = copy_bytes(&self.buf);
                if complete.len() > 0 && complete[complete.len() - 1] == 13 {
                    complete.truncate(complete.len() - 1);
                    proof {
                        assert(complete@ =~= pre_buf.drop_last());
                    }
                }
                proof {
                    assert(complete@ == chomp_cr(pre_buf));
                }
                self.buf = Vec::new();
                lines.push(complete);
                proof {
                    let p = pre_lines.push(pre_buf);
                    assert(p.last() == pre_buf);
                    assert(lines.deep_view() =~~= p.update(p.len() - 1, chomp_cr(pre_buf)));
                    assert(lines.deep_view().push(self.buf@) =~~= split_all(
                        s0 + chunk@.take(i + 1),
                    ));
                }
            } else {
                self.buf.push(b);
                proof {
                    let p = pre_lines.push(pre_buf);
                    assert(p.last() == pre_buf);
                    assert(lines.deep_view().push(self.buf@) =~~= p.update(
                        p.len() - 1,
                        pre_buf.push(b),
                    ));
                }
            }
            i = i + 1;
        }
        proof {
            assert(s0 + chunk@.take(chunk@.len() as int) =~= s0 + chunk@);
        }
        lines
    }

    /// End of stream: the partial final line, when non-empty.
    pub fn flush(self) -> (r: Option<Vec<u8>>)
        ensures
            r matches Some(l) ==> self.pending().len() > 0 && l@ == self.pending(),
            r is None ==> self.pending().len() == 0,
    {
        if self.buf.len() > 0 {
            Some(self.buf)
        } else {
            None
        }
    }
}

proof fn lemma_split_all_prefix_free(s: Seq<u8>)
    requires
        forall|i: int| 0 <= i < s.len() ==> s[i] != 10u8,
    ensures
        split_all(s) == seq![s],
    decreases s.len(),
{
    if s.len() == 0 {
        assert(split_all(s) =~~= seq![s]);
    } else {
        assert(forall|i: int| 0 <= i < s.drop_last().len() ==> s.drop_last()[i] != 10u8);
        lemma_split_all_prefix_free(s.drop_last());
        assert(seq![s.drop_last()].update(0, s.drop_last().push(s.last())) =~~= seq![s]);
    }
}

/// Split a whole byte stream into its lines.
pub fn split_lines(bytes: &Vec<u8>) -> (lines: Vec<Vec<u8>>)
    ensures
        lines.deep_view() == split_lines_spec(bytes@),
{
    let mut lb = LineBuffer::new();
    let mut lines = lb.feed(bytes);
    let ghost fed = lines.deep_view();
    let ghost pend = lb.pending();
    proof {
        assert(Seq::<u8>::empty() + bytes@ =~= bytes@);
        assert(fed.push(pend) == split_all(bytes@));
        assert(split_all(bytes@).last() == pend);
        assert(split_all(bytes@).drop_last() =~~= fed);
    }
    match lb.flush() {
        Some(last_line) => {
            lines.push(last_line);
            proof {
                assert(lines.deep_view() =~~= fed.push(pend));
            }
        },
        None => {},
    }
    lines
}

/// Per-line publication decision of the output streamer: a line is
/// republished to subscribers exactly when the selection signal, as read
/// at the moment the line is processed, equals this stream's process id.
pub fn should_publish(observed_selected: u32, pid: u32) -> (r: bool)
    ensures
        r == (observed_selected == pid),
{
    observed_selected == pid
}

/// The lines republished to subscribers: those whose observed selection
/// value equals the stream's pid, in order.
pub open spec fn published_spec(lines: Seq<Seq<char>>, observed: Seq<u32>, pid: u32) -> Seq<
    Seq<char>,
>
    recommends
        lines.len() == observed.len(),
    decreases lines.len(),
{
    if lines.len() == 0 {
        Seq::empty()
    } else if observed.last() == pid {
        published_spec(lines.drop_last(), observed.drop_last(), pid).push(lines.last())
    } else {
        published_spec(lines.drop_last(), observed.drop_last(), pid)
    }
}

/// Process one stream's lines in order. `observed` holds, for each line,
/// the selection signal's value at the moment that line was processed.
/// Every line is written to the log; exactly the lines observed as
/// selected are republished, in order, with no buffering and no replay.
pub fn stream_lines(lines: &Vec<String>, observed: &Vec<u32>, pid: u32) -> (r: (
    Vec<String>,
    Vec<String>,
))
    requires
        lines@.len() == observed@.len(),
    ensures
        r.0.deep_view() == lines.deep_view(),
        r.1.deep_view() == published_spec(lines.deep_view(), observed@, pid),
{
    let ghost ldv = lines.deep_view();
    let mut logged: Vec<String> = Vec::new();
    let mut published: Vec<String> = Vec::new();
    let mut i: usize = 0;
    proof {
        assert(logged.deep_view() =~= ldv.take(0));
        assert(published.deep_view() =~= published_spec(ldv.take(0), observed@.take(0), pid));
    }
    while i < lines.len()
        invariant
            i <= lines@.len(),
            lines@.len() == observed@.len(),
            ldv == lines.deep_view(),
            logged.deep_view() == ldv.take(i as int),
            published.deep_view() == published_spec(ldv.take(i as int), observed@.take(i as int), pid),
        decreases lines@.len() - i,
    {
        let ghost pre_log = logged.deep_view();
        let ghost pre_pub = published.deep_view();
        proof {
            assert(ldv.take(i + 1).drop_last() =~= ldv.take(i as int));
            assert(observed@.take(i + 1).drop_last() =~= observed@.take(i as int));
            assert(ldv.take(i + 1).last() == ldv[i as int]);
            assert(observed@.take(i + 1).last() == observed@[i as int]);
        }
        logged.push(lines[i].clone());
        proof {
            assert(logged.deep_view() =~= pre_log.push(ldv[i as int]));
        }
        if should_publish(observed[i], pid) {
            published.push(lines[i].clone());
            proof {
                assert(published.deep_view() =~= pre_pub.push(ldv[i as int]));
            }
        }
        i = i + 1;
    }
    proof {
        assert(ldv.take(lines@.len() as int) =~= ldv);
        assert(observed@.take(observed@.len() as int) =~= observed@);
    }
    (logged, published)
}

/// Law: when the selection signal reads this stream's pid for exactly the
/// first k lines and something else from then on, subscribers receive
/// exactly the first k lines, while the log holds all of them.
pub proof fn lemma_selection_filtering(
    lines: Seq<Seq<char>>,
    observed: Seq<u32>,
    pid: u32,
    k: int,
)
    requires
        lines.len() == observed.len(),
        0 <= k <= lines.len(),
        forall|i: int| 0 <= i < k ==> observed[i] == pid,
        forall|i: int| k <= i < lines.len() ==> observed[i] != pid,
    ensures
        published_spec(lines, observed, pid) == lines.take(k),
    decreases lines.len(),
{
    if lines.len() == 0 {
        assert(lines.take(k) =~= Seq::<Seq<char>>::empty());
    } else {
        let ls = lines.drop_last();
        let os = observed.drop_last();
        assert(forall|i: int| 0 <= i < ls.len() ==> ls[i] == lines[i]);
        assert(forall|i: int| 0 <= i < os.len() ==> os[i] == observed[i]);
        if k == lines.len() {
            assert(observed.last() == pid);
            lemma_selection_filtering(ls, os, pid, k - 1);
            assert(ls.take(k - 1) =~= ls);
            assert(ls.push(lines.last()) =~= lines.take(k));
        } else {
            assert(observed.last() != pid);
            lemma_selection_filtering(ls, os, pid, k);
            assert(ls.take(k) =~= lines.take(k));
        }
    }
}

} // verus!
