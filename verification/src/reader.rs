//! Reading integers and byte runs off the front of a byte string.

use vstd::prelude::*;
use vstd::slice::{slice_subrange, slice_to_vec};
use byteorder::{ByteOrder, LittleEndian};
use crate::error::LoadError;
use crate::format::{le_u16, le_u32, le_u64};

verus! {

/// `byteorder::LittleEndian::read_u16`: the number that the first two bytes
/// of `buf` stand for, least significant byte first. It panics on a shorter
/// slice.
#[verifier::external_body]
fn le_read_u16(buf: &[u8]) -> (r: u16)
    requires
        buf@.len() >= 2,
    ensures
        r as nat == le_u16(buf@.subrange(0, 2)),
{
    LittleEndian::read_u16(buf)
}

/// `byteorder::LittleEndian::read_u32`: the number that the first four bytes
/// of `buf` stand for, least significant byte first. It panics on a shorter
/// slice.
#[verifier::external_body]
fn le_read_u32(buf: &[u8]) -> (r: u32)
    requires
        buf@.len() >= 4,
    ensures
        r as nat == le_u32(buf@.subrange(0, 4)),
{
    LittleEndian::read_u32(buf)
}

/// `byteorder::LittleEndian::read_u64`: the number that the first eight bytes
/// of `buf` stand for, least significant byte first. It panics on a shorter
/// slice.
#[verifier::external_body]
fn le_read_u64(buf: &[u8]) -> (r: u64)
    requires
        buf@.len() >= 8,
    ensures
        r as nat == le_u64(buf@.subrange(0, 8)),
{
    LittleEndian::read_u64(buf)
}

/// A byte string and how far into it reading has come. Its view is what is
/// left to read.
pub struct ByteReader<'a> {
    bytes: &'a [u8],
    pos: usize,
}

impl<'a> View for ByteReader<'a> {
    type V = Seq<u8>;

    closed spec fn view(&self) -> Seq<u8> {
        self.bytes@.skip(self.pos as int)
    }
}

impl<'a> ByteReader<'a> {
    #[verifier::type_invariant]
    spec fn within(self) -> bool {
        self.pos <= self.bytes@.len()
    }

    /// A reader at the start of `bytes`.
    pub fn new(bytes: &'a [u8]) -> (r: Self)
        ensures
            r@ == bytes@,
    {
        ByteReader { bytes, pos: 0 }
    }

    /// How many bytes are left.
    pub fn remaining(&self) -> (r: usize)
        ensures
            r == self@.len(),
    {
        proof {
            use_type_invariant(self);
        }
        self.bytes.len() - self.pos
    }

    /// Takes the next `n` bytes, or nothing if fewer are left.
    fn take(&mut self, n: usize) -> (r: Result<&'a [u8], LoadError>)
        ensures
            match r {
                Ok(chunk) => old(self)@.len() >= n && chunk@ == old(self)@.subrange(0, n as int)
                    && final(self)@ == old(self)@.skip(n as int),
                Err(e) => e == LoadError::Truncated && old(self)@.len() < n && final(self)@ == old(
                    self,
                )@,
            },
    {
        proof {
            use_type_invariant(&*self);
        }
        if self.bytes.len() - self.pos < n {
            return Err(LoadError::Truncated);
        }
        let chunk = slice_subrange(self.bytes, self.pos, self.pos + n);
        self.pos = self.pos + n;
        Ok(chunk)
    }

    /// Reads one byte.
    pub fn read_u8(&mut self) -> (r: Result<u8, LoadError>)
        ensures
            match r {
                Ok(byte) => old(self)@.len() >= 1 && byte == old(self)@[0] && final(self)@ == old(
                    self,
                )@.skip(1),
                Err(e) => e == LoadError::Truncated && old(self)@.len() < 1 && final(self)@ == old(
                    self,
                )@,
            },
    {
        match self.take(1) {
            Ok(chunk) => Ok(chunk[0]),
            Err(e) => Err(e),
        }
    }

    /// Reads a little-endian 16-bit number.
    pub fn read_u16(&mut self) -> (r: Result<u16, LoadError>)
        ensures
            match r {
                Ok(value) => old(self)@.len() >= 2 && value as nat == le_u16(
                    old(self)@.subrange(0, 2),
                ) && final(self)@ == old(self)@.skip(2),
                Err(e) => e == LoadError::Truncated && old(self)@.len() < 2 && final(self)@ == old(
                    self,
                )@,
            },
    {
        match self.take(2) {
            Ok(chunk) => {
                assert(chunk@.subrange(0, 2) == chunk@);
                Ok(le_read_u16(chunk))
            },
            Err(e) => Err(e),
        }
    }

    /// Reads a little-endian 32-bit number.
    pub fn read_u32(&mut self) -> (r: Result<u32, LoadError>)
        ensures
            match r {
                Ok(value) => old(self)@.len() >= 4 && value as nat == le_u32(
                    old(self)@.subrange(0, 4),
                ) && final(self)@ == old(self)@.skip(4),
                Err(e) => e == LoadError::Truncated && old(self)@.len() < 4 && final(self)@ == old(
                    self,
                )@,
            },
    {
        match self.take(4) {
            Ok(chunk) => {
                assert(chunk@.subrange(0, 4) == chunk@);
                Ok(le_read_u32(chunk))
            },
            Err(e) => Err(e),
        }
    }

    /// Reads a little-endian 64-bit number.
    pub fn read_u64(&mut self) -> (r: Result<u64, LoadError>)
        ensures
            match r {
                Ok(value) => old(self)@.len() >= 8 && value as nat == le_u64(
                    old(self)@.subrange(0, 8),
                ) && final(self)@ == old(self)@.skip(8),
                Err(e) => e == LoadError::Truncated && old(self)@.len() < 8 && final(self)@ == old(
                    self,
                )@,
            },
    {
        match self.take(8) {
            Ok(chunk) => {
                assert(chunk@.subrange(0, 8) == chunk@);
                Ok(le_read_u64(chunk))
            },
            Err(e) => Err(e),
        }
    }

    /// Reads the next `n` bytes.
    pub fn read_bytes(&mut self, n: usize) -> (r: Result<Vec<u8>, LoadError>)
        ensures
            match r {
                Ok(run) => old(self)@.len() >= n && run@ == old(self)@.subrange(0, n as int)
                    && final(self)@ == old(self)@.skip(n as int),
                Err(e) => e == LoadError::Truncated && old(self)@.len() < n && final(self)@ == old(
                    self,
                )@,
            },
    {
        match self.take(n) {
            Ok(chunk) => Ok(slice_to_vec(chunk)),
            Err(e) => Err(e),
        }
    }
}

} // verus!
