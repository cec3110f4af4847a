//! Chains: ordered sequences of buffers forming a response body.
//!
//! A [`Chain`] holds one link per buffer, in emission order. A fully built
//! chain is *complete*: it has at least one link, and exactly its final link
//! carries `last_in_chain`. Every link's buffer is non-empty, except the
//! designated end-of-body sentinel (`last_buf` set): any other zero-length
//! buffer is a defect and is rejected at assembly.

use vstd::prelude::*;
use crate::buffer::NgxBuf;

verus! {

/// Concatenation of the valid bytes of a sequence of buffers.
pub open spec fn concat_content(bufs: Seq<NgxBuf>) -> Seq<u8>
    decreases bufs.len(),
{
    if bufs.len() == 0 {
        Seq::empty()
    } else {
        concat_content(bufs.drop_last()) + bufs.last().content()
    }
}

/// An ordered response-body chain, one link per buffer.
pub struct Chain {
    /// The links, in emission order.
    pub links: Vec<NgxBuf>,
}

impl Chain {
    /// What assembly accepts into a chain: a well-formed buffer that is
    /// non-empty, unless it is the end-of-body sentinel.
    pub open spec fn link_ok(buf: NgxBuf) -> bool {
        buf.wf() && (buf.spec_len() > 0 || buf.last_buf)
    }

    /// Every link was accepted by assembly.
    pub open spec fn wf(self) -> bool {
        forall|i: int| 0 <= i < self.links@.len() ==> #[trigger] Self::link_ok(self.links@[i])
    }

    /// A fully built chain: non-empty, and exactly the final link carries
    /// `last_in_chain`.
    pub open spec fn complete(self) -> bool {
        &&& self.links@.len() > 0
        &&& forall|i: int|
            0 <= i < self.links@.len() ==> (#[trigger] self.links@[i].last_in_chain <==> i
                == self.links@.len() - 1)
    }

    /// The body bytes the chain carries, in order.
    pub open spec fn content(self) -> Seq<u8> {
        concat_content(self.links@)
    }

    /// An empty chain.
    pub fn new() -> (c: Chain)
        ensures
            c.wf(),
            c.links@ =~= Seq::<NgxBuf>::empty(),
            c.content() =~= Seq::<u8>::empty(),
    {
        Chain { links: Vec::new() }
    }

    /// Appends one buffer as the next link. Rejected unless the buffer is
    /// well-formed and non-empty or the end-of-body sentinel.
    pub fn add_link(&mut self, buf: NgxBuf)
        requires
            Self::link_ok(buf),
        ensures
            final(self).links@ == old(self).links@.push(buf),
            old(self).wf() ==> final(self).wf(),
            final(self).content() == old(self).content() + buf.content(),
    {
        proof {
            lemma_concat_content_push(self.links@, buf);
        }
        self.links.push(buf);
    }

    /// Number of links.
    pub fn len(&self) -> (n: usize)
        ensures
            n == self.links@.len(),
    {
        self.links.len()
    }

    /// True exactly when the chain is fully built: non-empty, with exactly
    /// the final link carrying `last_in_chain`.
    pub fn is_complete(&self) -> (r: bool)
        ensures
            r == self.complete(),
    {
        let n = self.links.len();
        if n == 0 {
            return false;
        }
        let mut i: usize = 0;
        while i < n
            invariant
                0 <= i <= n,
                n == self.links@.len(),
                forall|k: int|
                    0 <= k < i ==> (#[trigger] self.links@[k].last_in_chain <==> k == n - 1),
            decreases n - i,
        {
            let flag = self.links[i].last_in_chain;
            if flag != (i == n - 1) {
                return false;
            }
            i = i + 1;
        }
        true
    }

    /// Copies the body bytes out, link after link.
    pub fn collect_bytes(&self) -> (r: Vec<u8>)
        requires
            self.wf(),
        ensures
            r@ == self.content(),
    {
        let mut r: Vec<u8> = Vec::new();
        let mut i: usize = 0;
        while i < self.links.len()
            invariant
                0 <= i <= self.links@.len(),
                self.wf(),
                r@ == concat_content(self.links@.take(i as int)),
            decreases self.links@.len() - i,
        {
            proof {
                assert(Chain::link_ok(self.links@[i as int]));
            }
            let link = &self.links[i];
            let piece = vstd::slice::slice_subrange(link.bytes.as_slice(), link.pos, link.last);
            let ghost before = r@;
            r.extend_from_slice(piece);
            proof {
                assert forall|k: int| 0 <= k < r@.len() implies r@[k] == (before
                    + link.content())[k] by {
                    if k >= before.len() {
                        assert(vstd::pervasive::cloned::<u8>(piece@[k - before.len()], r@[k]));
                    }
                }
                assert(r@ =~= before + link.content());
                assert(self.links@.take(i + 1).drop_last() =~= self.links@.take(i as int));
                assert(self.links@.take(i + 1).last() == self.links@[i as int]);
            }
            i = i + 1;
        }
        proof {
            assert(self.links@.take(self.links@.len() as int) =~= self.links@);
        }
        r
    }
}

/// Law: every buffer a chain carries has a non-negative length — `last`
/// never sits before `pos` — and a positive one unless it is the designated
/// end-of-body sentinel.
pub proof fn lemma_chain_buffers_nonempty(c: Chain, i: int)
    requires
        c.wf(),
        0 <= i < c.links@.len(),
    ensures
        c.links@[i].spec_len() >= 0,
        c.links@[i].spec_len() > 0 || c.links@[i].last_buf,
{
    assert(Chain::link_ok(c.links@[i]));
}

/// Appending a buffer appends its valid bytes to the chain's content.
pub proof fn lemma_concat_content_push(bufs: Seq<NgxBuf>, buf: NgxBuf)
    ensures
        concat_content(bufs.push(buf)) == concat_content(bufs) + buf.content(),
{
    assert(bufs.push(buf).drop_last() =~= bufs);
    assert(bufs.push(buf).last() == buf);
}

/// Law: concatenating the bytes of a two-link chain yields the first
/// buffer's bytes followed by the second's, byte for byte; and the chain is
/// fully built exactly when the second link, and only it, closes the chain.
pub proof fn lemma_two_link_chain(c: Chain, first: NgxBuf, second: NgxBuf)
    requires
        c.links@ == seq![first, second],
    ensures
        c.content() == first.content() + second.content(),
        c.complete() <==> (!first.last_in_chain && second.last_in_chain),
{
    assert(c.links@ =~= Seq::<NgxBuf>::empty().push(first).push(second));
    lemma_concat_content_push(Seq::<NgxBuf>::empty().push(first), second);
    lemma_concat_content_push(Seq::<NgxBuf>::empty(), first);
    assert(c.content() =~= first.content() + second.content());
    if !first.last_in_chain && second.last_in_chain {
        assert forall|i: int| 0 <= i < c.links@.len() implies (#[trigger] c.links@[i].last_in_chain
            <==> i == c.links@.len() - 1) by {
            if i == 0 {
                assert(c.links@[0] == first);
            } else {
                assert(c.links@[1] == second);
            }
        }
    }
    if c.complete() {
        assert(c.links@[0] == first);
        assert(c.links@[1] == second);
    }
}

} // verus!
