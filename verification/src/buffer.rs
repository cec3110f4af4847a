//! Buffers: views over a byte range with an ownership classification.
//!
//! An [`NgxBuf`] describes a half-open valid range `[pos, last)` inside a
//! byte window, together with its ownership kind (arena-owned `temporary`
//! memory, mutable, or externally-owned immutable memory) and the two role
//! flags a chain link carries: `last_buf` (end of response body) and
//! `last_in_chain` (end of this chain). [`TemporaryBuffer`] and
//! [`MemoryBuffer`] wrap a descriptor of the matching kind; only the
//! temporary kind offers mutation.

use vstd::prelude::*;
use crate::arena::Arena;

verus! {

/// Buffer descriptor: a byte window, the valid range `[pos, last)` inside
/// it, the ownership kind, and the two role flags.
pub struct NgxBuf {
    /// The byte window `[start, end)`; index 0 is `start`.
    pub bytes: Vec<u8>,
    /// First valid byte.
    pub pos: usize,
    /// One past the last valid byte; `pos <= last` always.
    pub last: usize,
    /// True for arena-owned, mutable memory reclaimed with its arena; false
    /// for externally-owned bytes that must outlive every consumer and are
    /// never written through the buffer.
    pub temporary: bool,
    /// Marks the end of the response body.
    pub last_buf: bool,
    /// Marks the final link of a chain.
    pub last_in_chain: bool,
}

impl NgxBuf {
    /// The valid range sits inside the window.
    pub open spec fn wf(self) -> bool {
        self.pos <= self.last <= self.bytes@.len()
    }

    /// The valid bytes, `[pos, last)`.
    pub open spec fn content(self) -> Seq<u8> {
        self.bytes@.subrange(self.pos as int, self.last as int)
    }

    /// Number of valid bytes; never negative, since `last >= pos`.
    pub open spec fn spec_len(self) -> int {
        self.last - self.pos
    }
}

/// What every buffer offers: its descriptor, its valid bytes, and the two
/// role flags of the chain link that will carry it.
pub trait Buffer: Sized {
    /// The underlying descriptor.
    spec fn ngx_buf(&self) -> NgxBuf;

    /// Borrows the underlying descriptor.
    fn as_ngx_buf(&self) -> (r: &NgxBuf)
        ensures
            *r == self.ngx_buf(),
    ;

    /// Hands the descriptor over, for chain assembly.
    fn into_ngx_buf(self) -> (r: NgxBuf)
        ensures
            r == self.ngx_buf(),
    ;

    /// The valid bytes `[pos, last)`.
    fn as_bytes(&self) -> (r: &[u8])
        requires
            self.ngx_buf().wf(),
        ensures
            r@ == self.ngx_buf().content(),
    ;

    /// Number of valid bytes.
    fn len(&self) -> (n: usize)
        requires
            self.ngx_buf().wf(),
        ensures
            n == self.ngx_buf().spec_len(),
    ;

    /// Sets the end-of-body role flag.
    fn set_last_buf(&mut self, last: bool)
        ensures
            final(self).ngx_buf() == (NgxBuf { last_buf: last, ..old(self).ngx_buf() }),
    ;

    /// Sets the end-of-chain role flag.
    fn set_last_in_chain(&mut self, last: bool)
        ensures
            final(self).ngx_buf() == (NgxBuf { last_in_chain: last, ..old(self).ngx_buf() }),
    ;
}

/// Mutation, offered by arena-owned buffers only: writing through an
/// externally-owned `Memory` buffer is a contract violation, so the memory
/// kind never implements this.
pub trait MutableBuffer: Buffer {
    /// Writes one byte of the window.
    fn write_byte(&mut self, i: usize, value: u8)
        requires
            i < old(self).ngx_buf().bytes@.len(),
        ensures
            final(self).ngx_buf() == (NgxBuf {
                bytes: final(self).ngx_buf().bytes,
                ..old(self).ngx_buf()
            }),
            final(self).ngx_buf().bytes@ == old(self).ngx_buf().bytes@.update(i as int, value),
    ;

    /// Moves `last`: the caller declares `[pos, last)` filled with valid
    /// data.
    fn set_filled(&mut self, last: usize)
        requires
            old(self).ngx_buf().pos <= last <= old(self).ngx_buf().bytes@.len(),
        ensures
            final(self).ngx_buf() == (NgxBuf { last, ..old(self).ngx_buf() }),
    ;
}

/// An arena-owned, mutable buffer, reclaimed with its arena.
pub struct TemporaryBuffer {
    buf: NgxBuf,
}

impl TemporaryBuffer {
    /// Wraps a descriptor of the temporary kind.
    pub fn from_ngx_buf(buf: NgxBuf) -> (r: TemporaryBuffer)
        requires
            buf.temporary,
        ensures
            r.ngx_buf() == buf,
    {
        TemporaryBuffer { buf }
    }

    /// Allocates `size` bytes from the arena. The buffer starts empty
    /// (`pos == last == start`): the caller writes into the window and then
    /// declares the filled range. Fails, with the arena unchanged, exactly
    /// when the arena cannot cover `size`.
    pub fn create_temporary(arena: &mut Arena, size: usize) -> (r: Option<TemporaryBuffer>)
        requires
            old(arena).wf(),
        ensures
            final(arena).wf(),
            final(arena).same_entries(*old(arena)),
            r is Some <==> size <= old(arena).remaining(),
            r is None ==> *final(arena) == *old(arena),
            r is Some ==> final(arena).used == old(arena).used + size,
            r is Some ==> {
                let b = r->Some_0.ngx_buf();
                &&& b.wf()
                &&& b.bytes@.len() == size
                &&& b.pos == 0
                &&& b.last == 0
                &&& b.temporary
                &&& !b.last_buf
                &&& !b.last_in_chain
            },
    {
        match arena.allocate(size) {
            Some(bytes) => Some(
                TemporaryBuffer {
                    buf: NgxBuf {
                        bytes,
                        pos: 0,
                        last: 0,
                        temporary: true,
                        last_buf: false,
                        last_in_chain: false,
                    },
                },
            ),
            None => None,
        }
    }

    /// Allocates room for `bytes` from the arena and copies them in; the
    /// whole copy is the valid range, so the buffer's bytes read back
    /// exactly as given. Fails, with the arena unchanged, exactly when the
    /// arena cannot cover the copy.
    pub fn create_from_bytes(arena: &mut Arena, bytes: &[u8]) -> (r: Option<TemporaryBuffer>)
        requires
            old(arena).wf(),
        ensures
            final(arena).wf(),
            final(arena).same_entries(*old(arena)),
            r is Some <==> bytes@.len() <= old(arena).remaining(),
            r is None ==> *final(arena) == *old(arena),
            r is Some ==> final(arena).used == old(arena).used + bytes@.len(),
            r is Some ==> {
                let b = r->Some_0.ngx_buf();
                &&& b.wf()
                &&& b.content() == bytes@
                &&& b.pos == 0
                &&& b.last == bytes@.len()
                &&& b.temporary
                &&& !b.last_buf
                &&& !b.last_in_chain
            },
    {
        match arena.allocate(bytes.len()) {
            Some(mut window) => {
                window.clear();
                window.extend_from_slice(bytes);
                proof {
                    assert forall|i: int| 0 <= i < window@.len() implies window@[i]
                        == bytes@[i] by {
                        assert(vstd::pervasive::cloned::<u8>(bytes@[i], window@[i]));
                    }
                    assert(window@ =~= bytes@);
                }
                let buffer = TemporaryBuffer {
                    buf: NgxBuf {
                        bytes: window,
                        pos: 0,
                        last: bytes.len(),
                        temporary: true,
                        last_buf: false,
                        last_in_chain: false,
                    },
                };
                proof {
                    assert(buffer.buf.content() =~= bytes@);
                }
                Some(buffer)
            },
            None => None,
        }
    }
}

impl Buffer for TemporaryBuffer {
    closed spec fn ngx_buf(&self) -> NgxBuf {
        self.buf
    }

    fn as_ngx_buf(&self) -> (r: &NgxBuf) {
        &self.buf
    }

    fn into_ngx_buf(self) -> (r: NgxBuf) {
        self.buf
    }

    fn as_bytes(&self) -> (r: &[u8]) {
        vstd::slice::slice_subrange(self.buf.bytes.as_slice(), self.buf.pos, self.buf.last)
    }

    fn len(&self) -> (n: usize) {
        self.buf.last - self.buf.pos
    }

    fn set_last_buf(&mut self, last: bool) {
        self.buf.last_buf = last;
    }

    fn set_last_in_chain(&mut self, last: bool) {
        self.buf.last_in_chain = last;
    }
}

impl MutableBuffer for TemporaryBuffer {
    fn write_byte(&mut self, i: usize, value: u8) {
        self.buf.bytes[i] = value;
    }

    fn set_filled(&mut self, last: usize) {
        self.buf.last = last;
    }
}

/// A buffer over externally-owned, immutable bytes whose lifetime must
/// outlive the response; never written through, never arena-charged.
pub struct MemoryBuffer {
    buf: NgxBuf,
}

impl MemoryBuffer {
    /// Wraps a descriptor of the memory kind.
    pub fn from_ngx_buf(buf: NgxBuf) -> (r: MemoryBuffer)
        requires
            !buf.temporary,
        ensures
            r.ngx_buf() == buf,
    {
        MemoryBuffer { buf }
    }

    /// Wraps externally-owned bytes without copying: the whole window is the
    /// valid range.
    pub fn create_from_static(bytes: Vec<u8>) -> (r: MemoryBuffer)
        ensures
            r.ngx_buf().wf(),
            r.ngx_buf().content() == bytes@,
            r.ngx_buf().bytes@ == bytes@,
            r.ngx_buf().pos == 0,
            r.ngx_buf().last == bytes@.len(),
            !r.ngx_buf().temporary,
            !r.ngx_buf().last_buf,
            !r.ngx_buf().last_in_chain,
    {
        let last = bytes.len();
        let r = MemoryBuffer {
            buf: NgxBuf {
                bytes,
                pos: 0,
                last,
                temporary: false,
                last_buf: false,
                last_in_chain: false,
            },
        };
        proof {
            assert(r.ngx_buf().content() =~= r.ngx_buf().bytes@);
        }
        r
    }
}

impl Buffer for MemoryBuffer {
    closed spec fn ngx_buf(&self) -> NgxBuf {
        self.buf
    }

    fn as_ngx_buf(&self) -> (r: &NgxBuf) {
        &self.buf
    }

    fn into_ngx_buf(self) -> (r: NgxBuf) {
        self.buf
    }

    fn as_bytes(&self) -> (r: &[u8]) {
        vstd::slice::slice_subrange(self.buf.bytes.as_slice(), self.buf.pos, self.buf.last)
    }

    fn len(&self) -> (n: usize) {
        self.buf.last - self.buf.pos
    }

    fn set_last_buf(&mut self, last: bool) {
        self.buf.last_buf = last;
    }

    fn set_last_in_chain(&mut self, last: bool) {
        self.buf.last_in_chain = last;
    }
}

} // verus!
