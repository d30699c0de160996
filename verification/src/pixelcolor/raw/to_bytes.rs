//! Conversion of raw data into byte arrays.

use super::layout::{be_bytes, le_bytes};
use super::load_store::significant_byte;
use super::{RawData, RawU1, RawU16, RawU2, RawU24, RawU32, RawU4, RawU8};
use vstd::prelude::*;

verus! {

/// Trait to convert raw data into byte arrays.
///
/// The arrays hold the significant bytes of the raw data only: one byte for
/// the widths up to 8 bits, and 2, 3 and 4 bytes for the widths of 16, 24 and
/// 32 bits. The byte order is asked for by the name of the method, whatever
/// the data order of a buffer that the raw data came from.
pub trait ToBytes {
    /// Return type of the methods in this trait.
    type Bytes;

    /// The bytes that a value of `Bytes` holds.
    spec fn bytes_view(bytes: Self::Bytes) -> Seq<u8>;

    /// The significant bytes of this value, least significant byte first.
    spec fn significant_bytes(&self) -> Seq<u8>;

    /// Converts a value into a byte array, least significant byte first.
    fn to_le_bytes(self) -> (bytes: Self::Bytes)
        ensures
            Self::bytes_view(bytes) == self.significant_bytes(),
    ;

    /// Converts a value into a byte array, most significant byte first.
    fn to_be_bytes(self) -> (bytes: Self::Bytes)
        ensures
            Self::bytes_view(bytes) == self.significant_bytes().reverse(),
    ;
}

impl ToBytes for RawU1 {
    type Bytes = [u8; 1];

    open spec fn bytes_view(bytes: [u8; 1]) -> Seq<u8> {
        bytes@
    }

    open spec fn significant_bytes(&self) -> Seq<u8> {
        seq![self@]
    }

    fn to_le_bytes(self) -> (bytes: [u8; 1])
        ensures
            bytes@ == seq![self@],
    {
        [self.into_inner()]
    }

    fn to_be_bytes(self) -> (bytes: [u8; 1])
        ensures
            bytes@ == seq![self@],
    {
        [self.into_inner()]
    }
}

impl ToBytes for RawU2 {
    type Bytes = [u8; 1];

    open spec fn bytes_view(bytes: [u8; 1]) -> Seq<u8> {
        bytes@
    }

    open spec fn significant_bytes(&self) -> Seq<u8> {
        seq![self@]
    }

    fn to_le_bytes(self) -> (bytes: [u8; 1])
        ensures
            bytes@ == seq![self@],
    {
        [self.into_inner()]
    }

    fn to_be_bytes(self) -> (bytes: [u8; 1])
        ensures
            bytes@ == seq![self@],
    {
        [self.into_inner()]
    }
}

impl ToBytes for RawU4 {
    type Bytes = [u8; 1];

    open spec fn bytes_view(bytes: [u8; 1]) -> Seq<u8> {
        bytes@
    }

    open spec fn significant_bytes(&self) -> Seq<u8> {
        seq![self@]
    }

    fn to_le_bytes(self) -> (bytes: [u8; 1])
        ensures
            bytes@ == seq![self@],
    {
        [self.into_inner()]
    }

    fn to_be_bytes(self) -> (bytes: [u8; 1])
        ensures
            bytes@ == seq![self@],
    {
        [self.into_inner()]
    }
}

impl ToBytes for RawU8 {
    type Bytes = [u8; 1];

    open spec fn bytes_view(bytes: [u8; 1]) -> Seq<u8> {
        bytes@
    }

    open spec fn significant_bytes(&self) -> Seq<u8> {
        seq![self@]
    }

    fn to_le_bytes(self) -> (bytes: [u8; 1])
        ensures
            bytes@ == seq![self@],
    {
        [self.into_inner()]
    }

    fn to_be_bytes(self) -> (bytes: [u8; 1])
        ensures
            bytes@ == seq![self@],
    {
        [self.into_inner()]
    }
}

impl ToBytes for RawU16 {
    type Bytes = [u8; 2];

    open spec fn bytes_view(bytes: [u8; 2]) -> Seq<u8> {
        bytes@
    }

    open spec fn significant_bytes(&self) -> Seq<u8> {
        le_bytes(self@ as u32, 2)
    }

    fn to_le_bytes(self) -> (bytes: [u8; 2])
        ensures
            bytes@ == le_bytes(self@ as u32, 2),
    {
        let value: u32 = self.into_inner() as u32;
        [
            significant_byte(value, 0),
            significant_byte(value, 1),
        ]
    }

    fn to_be_bytes(self) -> (bytes: [u8; 2])
        ensures
            bytes@ == be_bytes(self@ as u32, 2),
    {
        let value: u32 = self.into_inner() as u32;
        [
            significant_byte(value, 1),
            significant_byte(value, 0),
        ]
    }
}

impl ToBytes for RawU24 {
    type Bytes = [u8; 3];

    open spec fn bytes_view(bytes: [u8; 3]) -> Seq<u8> {
        bytes@
    }

    open spec fn significant_bytes(&self) -> Seq<u8> {
        le_bytes(self@, 3)
    }

    fn to_le_bytes(self) -> (bytes: [u8; 3])
        ensures
            bytes@ == le_bytes(self@, 3),
    {
        let value: u32 = self.into_inner();
        [
            significant_byte(value, 0),
            significant_byte(value, 1),
            significant_byte(value, 2),
        ]
    }

    fn to_be_bytes(self) -> (bytes: [u8; 3])
        ensures
            bytes@ == be_bytes(self@, 3),
    {
        let value: u32 = self.into_inner();
        [
            significant_byte(value, 2),
            significant_byte(value, 1),
            significant_byte(value, 0),
        ]
    }
}

impl ToBytes for RawU32 {
    type Bytes = [u8; 4];

    open spec fn bytes_view(bytes: [u8; 4]) -> Seq<u8> {
        bytes@
    }

    open spec fn significant_bytes(&self) -> Seq<u8> {
        le_bytes(self@, 4)
    }

    fn to_le_bytes(self) -> (bytes: [u8; 4])
        ensures
            bytes@ == le_bytes(self@, 4),
    {
        let value: u32 = self.into_inner();
        [
            significant_byte(value, 0),
            significant_byte(value, 1),
            significant_byte(value, 2),
            significant_byte(value, 3),
        ]
    }

    fn to_be_bytes(self) -> (bytes: [u8; 4])
        ensures
            bytes@ == be_bytes(self@, 4),
    {
        let value: u32 = self.into_inner();
        [
            significant_byte(value, 3),
            significant_byte(value, 2),
            significant_byte(value, 1),
            significant_byte(value, 0),
        ]
    }
}

} // verus!
