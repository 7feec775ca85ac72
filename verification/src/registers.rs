//! The register view: a uniform "array of per-port register groups" model of
//! the GPIO hardware.
//!
//! Each port owns three words. `dir` is the direction register (a set bit
//! makes the pin an output), `out` is the output latch written through the
//! set/clear/toggle registers, and `ext` is the level that the outside world
//! drives onto pins configured as inputs. Reading the level register shows,
//! per bit, the output latch where the direction bit is set and the external
//! level where it is clear.
//!
//! Every write strobe is recorded in a write-order log, so that ordering
//! obligations (a level write must precede the direction write that makes the
//! pin an output) are both provable and observable from the outside.
//!
//! The accessors touch only the bits of the mask they are given; the lemma at
//! the end states that a write never changes the observed level of disjoint
//! bits, which is why handles to different pins can share this block without
//! any lock.

use vstd::prelude::*;

use crate::bits;

verus! {

/// Which write strobe a log entry went through.
#[derive(Clone, Copy, PartialEq, Eq, Structural, Debug)]
pub enum WriteOp {
    /// Direction-set strobe: the masked pins become outputs.
    DirSet,
    /// Direction-clear strobe: the masked pins become inputs.
    DirClr,
    /// Output-set strobe: the masked bits of the output latch go high.
    OutSet,
    /// Output-clear strobe: the masked bits of the output latch go low.
    OutClr,
    /// Output-toggle strobe: the masked bits of the output latch flip.
    OutNot,
}

/// One recorded register write: which strobe, on which port, with which mask.
#[derive(Clone, Copy, PartialEq, Eq, Structural, Debug)]
pub struct WriteRecord {
    /// The strobe written through.
    pub op: WriteOp,
    /// The port whose register group was addressed.
    pub port: usize,
    /// The bit mask written to the strobe.
    pub mask: u32,
}

/// The three state words behind one port's register group.
#[derive(Clone, Copy)]
struct PortWords {
    dir: u32,
    out: u32,
    ext: u32,
}

/// The modeled register block: one register group per physical port, plus the
/// write-order log.
pub struct Registers {
    ports: Vec<PortWords>,
    log: Vec<WriteRecord>,
}

impl Registers {
    /// How many ports the block exposes.
    pub closed spec fn num_ports(&self) -> int {
        self.ports@.len() as int
    }

    /// The direction word of port `p`.
    pub closed spec fn port_dir(&self, p: int) -> u32 {
        self.ports@[p].dir
    }

    /// The output latch word of port `p`.
    pub closed spec fn port_out(&self, p: int) -> u32 {
        self.ports@[p].out
    }

    /// The externally driven word of port `p`.
    pub closed spec fn port_ext(&self, p: int) -> u32 {
        self.ports@[p].ext
    }

    /// The write-order log, oldest entry first.
    pub closed spec fn log(&self) -> Seq<WriteRecord> {
        self.log@
    }

    /// The word the level register of port `p` reads as: the output latch on
    /// output bits, the external level on input bits.
    pub open spec fn pin_word(&self, p: int) -> u32 {
        (self.port_dir(p) & self.port_out(p)) | (!self.port_dir(p) & self.port_ext(p))
    }

    /// Whether every bit of `mask` reads high in port `p`'s level register.
    pub open spec fn observed_high(&self, p: int, mask: u32) -> bool {
        self.pin_word(p) & mask == mask
    }

    /// Whether every bit of `mask` is set in port `p`'s direction register.
    pub open spec fn dir_set(&self, p: int, mask: u32) -> bool {
        self.port_dir(p) & mask == mask
    }

    /// Whether every bit of `mask` is clear in port `p`'s direction register.
    pub open spec fn dir_clear(&self, p: int, mask: u32) -> bool {
        self.port_dir(p) & mask == 0
    }

    /// Whether every bit of `mask` is set in port `p`'s output latch.
    pub open spec fn out_set(&self, p: int, mask: u32) -> bool {
        self.port_out(p) & mask == mask
    }

    /// Build a register block with `num_ports` register groups, all words
    /// zeroed and the log empty. Single-port silicon passes 1 here; the
    /// higher layers never see the difference.
    pub fn new(num_ports: usize) -> (r: Registers)
        ensures
            r.num_ports() == num_ports,
            forall|p: int|
                0 <= p < num_ports ==> r.port_dir(p) == 0 && r.port_out(p) == 0 && r.port_ext(p)
                    == 0,
            r.log() == Seq::<WriteRecord>::empty(),
    {
        let mut ports: Vec<PortWords> = Vec::new();
        let mut i: usize = 0;
        while i < num_ports
            invariant
                i <= num_ports,
                ports@.len() == i,
                forall|p: int|
                    0 <= p < i ==> ports@[p].dir == 0 && ports@[p].out == 0 && ports@[p].ext == 0,
            decreases num_ports - i,
        {
            ports.push(PortWords { dir: 0, out: 0, ext: 0 });
            i = i + 1;
        }
        let log: Vec<WriteRecord> = Vec::new();
        assert(log@ =~= Seq::<WriteRecord>::empty());
        Registers { ports, log }
    }

    /// How many ports the block exposes, for callers outside the proof.
    pub fn port_count(&self) -> (n: usize)
        ensures
            n == self.num_ports(),
    {
        self.ports.len()
    }

    /// Write `mask` to the direction-set strobe of `port`.
    pub fn write_dirset(&mut self, port: usize, mask: u32)
        requires
            port < old(self).num_ports(),
        ensures
            write_applied(
                *old(self),
                *final(self),
                (WriteRecord { op: WriteOp::DirSet, port, mask }),
            ),
    {
        let w = self.ports[port];
        self.ports[port] = PortWords { dir: w.dir | mask, out: w.out, ext: w.ext };
        self.log.push(WriteRecord { op: WriteOp::DirSet, port, mask });
    }

    /// Write `mask` to the direction-clear strobe of `port`.
    pub fn write_dirclr(&mut self, port: usize, mask: u32)
        requires
            port < old(self).num_ports(),
        ensures
            write_applied(
                *old(self),
                *final(self),
                (WriteRecord { op: WriteOp::DirClr, port, mask }),
            ),
    {
        let w = self.ports[port];
        self.ports[port] = PortWords { dir: w.dir & !mask, out: w.out, ext: w.ext };
        self.log.push(WriteRecord { op: WriteOp::DirClr, port, mask });
    }

    /// Write `mask` to the output-set strobe of `port`.
    pub fn write_set(&mut self, port: usize, mask: u32)
        requires
            port < old(self).num_ports(),
        ensures
            write_applied(
                *old(self),
                *final(self),
                (WriteRecord { op: WriteOp::OutSet, port, mask }),
            ),
    {
        let w = self.ports[port];
        self.ports[port] = PortWords { dir: w.dir, out: w.out | mask, ext: w.ext };
        self.log.push(WriteRecord { op: WriteOp::OutSet, port, mask });
    }

    /// Write `mask` to the output-clear strobe of `port`.
    pub fn write_clr(&mut self, port: usize, mask: u32)
        requires
            port < old(self).num_ports(),
        ensures
            write_applied(
                *old(self),
                *final(self),
                (WriteRecord { op: WriteOp::OutClr, port, mask }),
            ),
    {
        let w = self.ports[port];
        self.ports[port] = PortWords { dir: w.dir, out: w.out & !mask, ext: w.ext };
        self.log.push(WriteRecord { op: WriteOp::OutClr, port, mask });
    }

    /// Write `mask` to the output-toggle strobe of `port`.
    pub fn write_not(&mut self, port: usize, mask: u32)
        requires
            port < old(self).num_ports(),
        ensures
            write_applied(
                *old(self),
                *final(self),
                (WriteRecord { op: WriteOp::OutNot, port, mask }),
            ),
    {
        let w = self.ports[port];
        self.ports[port] = PortWords { dir: w.dir, out: w.out ^ mask, ext: w.ext };
        self.log.push(WriteRecord { op: WriteOp::OutNot, port, mask });
    }

    /// Read the level register of `port`. Reads are not logged; only writes
    /// carry ordering obligations.
    pub fn read_pin(&self, port: usize) -> (w: u32)
        requires
            port < self.num_ports(),
        ensures
            w == self.pin_word(port as int),
    {
        let p = self.ports[port];
        (p.dir & p.out) | (!p.dir & p.ext)
    }

    /// The environment's side of the model: drive the external level of the
    /// masked pins of `port` high or low. This is what a signal arriving at
    /// an input pin does; it is no register write and is not logged.
    pub fn drive_external(&mut self, port: usize, mask: u32, high: bool)
        requires
            port < old(self).num_ports(),
        ensures
            final(self).num_ports() == old(self).num_ports(),
            final(self).log() == old(self).log(),
            forall|q: int|
                0 <= q < old(self).num_ports() ==> final(self).port_dir(q) == old(self).port_dir(q)
                    && final(self).port_out(q) == old(self).port_out(q),
            forall|q: int|
                0 <= q < old(self).num_ports() && q != port ==> final(self).port_ext(q) == old(
                    self,
                ).port_ext(q),
            final(self).port_ext(port as int) == if high {
                old(self).port_ext(port as int) | mask
            } else {
                old(self).port_ext(port as int) & !mask
            },
    {
        let w = self.ports[port];
        let ext: u32 = if high {
            w.ext | mask
        } else {
            w.ext & !mask
        };
        self.ports[port] = PortWords { dir: w.dir, out: w.out, ext };
    }

    /// The write-order log, for callers outside the proof.
    pub fn write_log(&self) -> (l: &Vec<WriteRecord>)
        ensures
            l@ == self.log(),
    {
        &self.log
    }

    /// The direction word of `port`, for callers outside the proof.
    pub fn read_dir(&self, port: usize) -> (w: u32)
        requires
            port < self.num_ports(),
        ensures
            w == self.port_dir(port as int),
    {
        self.ports[port].dir
    }
}

/// A write to port `p` touches no other port's registers and never touches an
/// external level word.
pub open spec fn writes_only_port(pre: Registers, post: Registers, p: int) -> bool {
    &&& post.num_ports() == pre.num_ports()
    &&& forall|q: int|
        0 <= q < pre.num_ports() && q != p ==> post.port_dir(q) == pre.port_dir(q)
            && post.port_out(q) == pre.port_out(q)
    &&& forall|q: int| 0 <= q < pre.num_ports() ==> post.port_ext(q) == pre.port_ext(q)
}

/// Exactly what one register write does: the addressed port's words change as
/// the strobe dictates, everything else stays, and the write is appended to
/// the log.
pub open spec fn write_applied(pre: Registers, post: Registers, rec: WriteRecord) -> bool {
    let p = rec.port as int;
    &&& writes_only_port(pre, post, p)
    &&& post.log() == pre.log().push(rec)
    &&& match rec.op {
        WriteOp::DirSet => post.port_dir(p) == pre.port_dir(p) | rec.mask && post.port_out(p)
            == pre.port_out(p),
        WriteOp::DirClr => post.port_dir(p) == pre.port_dir(p) & !rec.mask && post.port_out(p)
            == pre.port_out(p),
        WriteOp::OutSet => post.port_dir(p) == pre.port_dir(p) && post.port_out(p) == pre.port_out(
            p,
        ) | rec.mask,
        WriteOp::OutClr => post.port_dir(p) == pre.port_dir(p) && post.port_out(p) == pre.port_out(
            p,
        ) & !rec.mask,
        WriteOp::OutNot => post.port_dir(p) == pre.port_dir(p) && post.port_out(p) == pre.port_out(
            p,
        ) ^ rec.mask,
    }
}

/// Isolation: a register write whose mask is disjoint from `mask` (or that
/// addresses another port) changes neither the observed level nor the
/// direction nor the output latch of `mask`'s bits. This is why handles to
/// different pins may alias the register block without a lock.
pub proof fn lemma_write_isolation(
    pre: Registers,
    post: Registers,
    rec: WriteRecord,
    p: int,
    mask: u32,
)
    requires
        write_applied(pre, post, rec),
        0 <= p < pre.num_ports(),
        p != rec.port as int || mask & rec.mask == 0,
    ensures
        post.port_dir(p) & mask == pre.port_dir(p) & mask,
        post.port_out(p) & mask == pre.port_out(p) & mask,
        post.port_ext(p) == pre.port_ext(p),
        post.pin_word(p) & mask == pre.pin_word(p) & mask,
        post.observed_high(p, mask) == pre.observed_high(p, mask),
{
    if p == rec.port as int {
        match rec.op {
            WriteOp::DirSet => {
                bits::lemma_or_disjoint(pre.port_dir(p), mask, rec.mask);
            },
            WriteOp::DirClr => {
                bits::lemma_andnot_disjoint(pre.port_dir(p), mask, rec.mask);
            },
            WriteOp::OutSet => {
                bits::lemma_or_disjoint(pre.port_out(p), mask, rec.mask);
            },
            WriteOp::OutClr => {
                bits::lemma_andnot_disjoint(pre.port_out(p), mask, rec.mask);
            },
            WriteOp::OutNot => {
                bits::lemma_xor_disjoint(pre.port_out(p), mask, rec.mask);
            },
        }
    }
    bits::lemma_mux_masked_congruence(
        pre.port_dir(p),
        pre.port_out(p),
        pre.port_ext(p),
        post.port_dir(p),
        post.port_out(p),
        post.port_ext(p),
        mask,
    );
}

} // verus!
