//! Memory buffers and the tags that describe their contents.
//!
//! A [`Buffer`] is an owned byte region tagged with a memory location kind and
//! an element type. This build has no device-memory support: allocation is
//! host-only, and requests for any other location are refused with
//! [`ErrorCode::Unsupported`](crate::error::ErrorCode).

use vstd::prelude::*;

use crate::error::{Error, ErrorCode};
use crate::sample::{decoded_samples, encode_seq, lemma_encode_seq_len, lemma_encode_seq_push, Sample};

verus! {

/// Tensor element types recognized by the inference engine.
#[derive(Debug, Copy, Clone, PartialEq, Eq, Structural, Hash)]
pub enum DataType {
    Invalid,
    Bool,
    Uint8,
    Uint16,
    Uint32,
    Uint64,
    Int8,
    Int16,
    Int32,
    Int64,
    Fp16,
    Fp32,
    Fp64,
    Bytes,
    Bf16,
}

impl DataType {
    /// Size in bytes of one element of this type. `Bytes` elements have
    /// variable size, reported as zero; `Invalid` has no size.
    pub open spec fn size_spec(self) -> nat {
        match self {
            DataType::Invalid => 0,
            DataType::Bool => 1,
            DataType::Uint8 => 1,
            DataType::Uint16 => 2,
            DataType::Uint32 => 4,
            DataType::Uint64 => 8,
            DataType::Int8 => 1,
            DataType::Int16 => 2,
            DataType::Int32 => 4,
            DataType::Int64 => 8,
            DataType::Fp16 => 2,
            DataType::Fp32 => 4,
            DataType::Fp64 => 8,
            DataType::Bytes => 0,
            DataType::Bf16 => 2,
        }
    }

    /// Get the size of an element of this data type in bytes. Zero is
    /// returned for [DataType::Bytes] because it has variable size.
    pub fn size(self) -> (r: u32)
        ensures
            r == self.size_spec(),
    {
        match self {
            DataType::Invalid => 0,
            DataType::Bool => 1,
            DataType::Uint8 => 1,
            DataType::Uint16 => 2,
            DataType::Uint32 => 4,
            DataType::Uint64 => 8,
            DataType::Int8 => 1,
            DataType::Int16 => 2,
            DataType::Int32 => 4,
            DataType::Int64 => 8,
            DataType::Fp16 => 2,
            DataType::Fp32 => 4,
            DataType::Fp64 => 8,
            DataType::Bytes => 0,
            DataType::Bf16 => 2,
        }
    }

    /// The name of this data type, as the engine spells it.
    pub open spec fn name_spec(self) -> Seq<char> {
        match self {
            DataType::Invalid => "INVALID"@,
            DataType::Bool => "BOOL"@,
            DataType::Uint8 => "UINT8"@,
            DataType::Uint16 => "UINT16"@,
            DataType::Uint32 => "UINT32"@,
            DataType::Uint64 => "UINT64"@,
            DataType::Int8 => "INT8"@,
            DataType::Int16 => "INT16"@,
            DataType::Int32 => "INT32"@,
            DataType::Int64 => "INT64"@,
            DataType::Fp16 => "FP16"@,
            DataType::Fp32 => "FP32"@,
            DataType::Fp64 => "FP64"@,
            DataType::Bytes => "BYTES"@,
            DataType::Bf16 => "BF16"@,
        }
    }

    /// Get the string representation of a data type.
    pub fn as_str(self) -> (r: &'static str)
        ensures
            r@ == self.name_spec(),
    {
        match self {
            DataType::Invalid => "INVALID",
            DataType::Bool => "BOOL",
            DataType::Uint8 => "UINT8",
            DataType::Uint16 => "UINT16",
            DataType::Uint32 => "UINT32",
            DataType::Uint64 => "UINT64",
            DataType::Int8 => "INT8",
            DataType::Int16 => "INT16",
            DataType::Int32 => "INT32",
            DataType::Int64 => "INT64",
            DataType::Fp16 => "FP16",
            DataType::Fp32 => "FP32",
            DataType::Fp64 => "FP64",
            DataType::Bytes => "BYTES",
            DataType::Bf16 => "BF16",
        }
    }

    /// Get the data type corresponding to a string representation of a
    /// data type. Names that denote no valid data type are refused with
    /// `InvalidArg`.
    pub fn try_from_str(name: &str) -> (r: Result<DataType, Error>)
        ensures
            match r {
                Ok(dt) => dt != DataType::Invalid && name@ == dt.name_spec(),
                Err(e) => {
                    &&& e.code == ErrorCode::InvalidArg
                    &&& forall|dt: DataType|
                        dt != DataType::Invalid ==> name@ != #[trigger] dt.name_spec()
                },
            },
    {
        let n = name.to_owned();
        let r = if n == String::from_str("BOOL") {
            Ok(DataType::Bool)
        } else if n == String::from_str("UINT8") {
            Ok(DataType::Uint8)
        } else if n == String::from_str("UINT16") {
            Ok(DataType::Uint16)
        } else if n == String::from_str("UINT32") {
            Ok(DataType::Uint32)
        } else if n == String::from_str("UINT64") {
            Ok(DataType::Uint64)
        } else if n == String::from_str("INT8") {
            Ok(DataType::Int8)
        } else if n == String::from_str("INT16") {
            Ok(DataType::Int16)
        } else if n == String::from_str("INT32") {
            Ok(DataType::Int32)
        } else if n == String::from_str("INT64") {
            Ok(DataType::Int64)
        } else if n == String::from_str("FP16") {
            Ok(DataType::Fp16)
        } else if n == String::from_str("FP32") {
            Ok(DataType::Fp32)
        } else if n == String::from_str("FP64") {
            Ok(DataType::Fp64)
        } else if n == String::from_str("BYTES") {
            Ok(DataType::Bytes)
        } else if n == String::from_str("BF16") {
            Ok(DataType::Bf16)
        } else {
            Err(Error::new(ErrorCode::InvalidArg, ""))
        };
        proof {
            if r is Err {
                assert forall|dt: DataType| dt != DataType::Invalid implies name@
                    != #[trigger] dt.name_spec() by {
                    // every accepted spelling was compared against above
                }
            }
        }
        r
    }
}

/// A single raw byte, the element of [`DataType::Bytes`]-typed buffers.
#[derive(Clone, Copy, Debug, PartialEq, Eq, Structural)]
pub struct Byte(pub u8);

/// Kinds of memory locations recognized by the inference engine.
#[derive(Debug, Copy, Clone, PartialEq, Eq, Structural, Hash)]
pub enum MemoryType {
    Cpu,
    Pinned,
    Gpu,
}

impl MemoryType {
    /// The name of this memory kind, as the engine spells it.
    pub open spec fn name_spec(self) -> Seq<char> {
        match self {
            MemoryType::Cpu => "CPU"@,
            MemoryType::Pinned => "CPU_PINNED"@,
            MemoryType::Gpu => "GPU"@,
        }
    }

    /// Get the string representation of a memory type.
    pub fn as_str(self) -> (r: &'static str)
        ensures
            r@ == self.name_spec(),
    {
        match self {
            MemoryType::Cpu => "CPU",
            MemoryType::Pinned => "CPU_PINNED",
            MemoryType::Gpu => "GPU",
        }
    }
}

/// Data storing buffer.
///
/// Owns its bytes; the `owned` flag records whether the region was created by
/// this layer (`true`) or mirrors memory lent by the engine (`false`).
#[derive(Debug)]
pub struct Buffer {
    pub data: Vec<u8>,
    pub data_type: DataType,
    pub memory_type: MemoryType,
    pub owned: bool,
}

impl Buffer {
    /// Allocate a zero-initialized buffer of `count` elements of `data_type`.
    ///
    /// Only host memory can be allocated in this build: any other location is
    /// refused with `Unsupported` and nothing is allocated.
    pub fn alloc_with_data_type(count: usize, memory_type: MemoryType, data_type: DataType) -> (r:
        Result<Buffer, Error>)
        requires
            count * data_type.size_spec() <= usize::MAX,
        ensures
            match r {
                Ok(b) => {
                    &&& memory_type == MemoryType::Cpu
                    &&& b.data@.len() == count * data_type.size_spec()
                    &&& forall|i: int| 0 <= i < b.data@.len() ==> b.data@[i] == 0
                    &&& b.data_type == data_type
                    &&& b.memory_type == memory_type
                    &&& b.owned
                },
                Err(e) => memory_type != MemoryType::Cpu && e.code == ErrorCode::Unsupported,
            },
    {
        if !matches!(memory_type, MemoryType::Cpu) {
            return Err(Error::wrong_type(memory_type));
        }
        let size = count * (data_type.size() as usize);
        let mut data: Vec<u8> = Vec::new();
        let mut i: usize = 0;
        while i < size
            invariant
                i <= size,
                data@.len() == i,
                forall|j: int| 0 <= j < i ==> data@[j] == 0,
            decreases size - i,
        {
            data.push(0);
            i += 1;
        }
        Ok(Buffer { data, data_type, memory_type, owned: true })
    }

    /// Get memory type of stored data.
    pub fn memory_type(&self) -> (r: MemoryType)
        ensures
            r == self.memory_type,
    {
        self.memory_type
    }

    /// Get data type of stored data.
    pub fn data_type(&self) -> (r: DataType)
        ensures
            r == self.data_type,
    {
        self.data_type
    }

    /// Get byte size of data.
    pub fn size(&self) -> (r: usize)
        ensures
            r == self.data@.len(),
    {
        self.data.len()
    }

    /// True if not containing any data.
    pub fn is_empty(&self) -> (r: bool)
        ensures
            r == (self.data@.len() == 0),
    {
        self.data.len() == 0
    }

    /// Get buffer content as bytes.
    pub fn bytes(&self) -> (r: &Vec<u8>)
        ensures
            r@ == self.data@,
    {
        &self.data
    }

    /// Get buffer content as mutable bytes.
    pub fn bytes_mut(&mut self) -> (r: &mut Vec<u8>)
        ensures
            *r == old(self).data,
            final(self).data == *final(r),
            final(self).data_type == old(self).data_type,
            final(self).memory_type == old(self).memory_type,
            final(self).owned == old(self).owned,
    {
        &mut self.data
    }

    /// Copy the bytes of `source` into this buffer, starting `offset` bytes
    /// from its beginning. Fails with an `Internal` size-mismatch error, and
    /// changes nothing, when the source does not fit; refused with
    /// `Unsupported` for non-host buffers.
    pub fn copy_bytes_from(&mut self, offset: usize, source: &[u8]) -> (r: Result<(), Error>)
        ensures
            match r {
                Ok(()) => {
                    &&& old(self).memory_type == MemoryType::Cpu
                    &&& offset + source@.len() <= old(self).data@.len()
                    &&& final(self).data@ == old(self).data@.subrange(0, offset as int).add(
                        source@,
                    ).add(
                        old(self).data@.subrange(
                            offset + source@.len(),
                            old(self).data@.len() as int,
                        ),
                    )
                    &&& final(self).data_type == old(self).data_type
                    &&& final(self).memory_type == old(self).memory_type
                    &&& final(self).owned == old(self).owned
                },
                Err(e) => {
                    &&& *final(self) == *old(self)
                    &&& if old(self).memory_type != MemoryType::Cpu {
                        e.code == ErrorCode::Unsupported
                    } else {
                        e.code == ErrorCode::Internal && offset + source@.len() > old(
                            self,
                        ).data@.len()
                    }
                },
            },
    {
        if !matches!(self.memory_type, MemoryType::Cpu) {
            return Err(Error::wrong_type(self.memory_type));
        }
        if source.len() > self.data.len() || offset > self.data.len() - source.len() {
            return Err(
                Error::new(ErrorCode::Internal, "copy_from_slice error: size mismatch!"),
            );
        }
        let mut i: usize = 0;
        while i < source.len()
            invariant
                i <= source@.len(),
                offset + source@.len() <= self.data@.len(),
                self.data@.len() <= usize::MAX,
                self.data@.len() == old(self).data@.len(),
                self.data_type == old(self).data_type,
                self.memory_type == old(self).memory_type,
                self.owned == old(self).owned,
                forall|j: int|
                    0 <= j < self.data@.len() && !(offset <= j < offset + i) ==> self.data@[j]
                        == old(self).data@[j],
                forall|j: int| 0 <= j < i ==> self.data@[offset + j] == source@[j],
            decreases source@.len() - i,
        {
            let b = source[i];
            self.data.set(offset + i, b);
            i += 1;
        }
        proof {
            assert(self.data@ =~= old(self).data@.subrange(0, offset as int).add(source@).add(
                old(self).data@.subrange(offset + source@.len(), old(self).data@.len() as int),
            ));
        }
        Ok(())
    }

    /// Get content of a part of the buffer as owned host bytes:
    /// the range from `left` inclusive to `right` exclusive.
    pub fn get_owned_slice(&self, left: usize, right: usize) -> (r: Result<Vec<u8>, Error>)
        requires
            left <= right,
        ensures
            match r {
                Ok(v) => {
                    &&& self.memory_type == MemoryType::Cpu
                    &&& right <= self.data@.len() as int
                    &&& v@ == self.data@.subrange(left as int, right as int)
                },
                Err(e) => if self.memory_type != MemoryType::Cpu {
                    e.code == ErrorCode::Unsupported
                } else {
                    e.code == ErrorCode::InvalidArg && right > self.data@.len() as int
                },
            },
    {
        if !matches!(self.memory_type, MemoryType::Cpu) {
            return Err(Error::wrong_type(self.memory_type));
        }
        if right > self.data.len() {
            return Err(Error::new(ErrorCode::InvalidArg, "get_slice invalid range"));
        }
        let mut v: Vec<u8> = Vec::new();
        let mut i: usize = left;
        while i < right
            invariant
                left <= i <= right <= self.data@.len(),
                v@ == self.data@.subrange(left as int, i as int),
            decreases right - i,
        {
            v.push(self.data[i]);
            proof {
                assert(v@ =~= self.data@.subrange(left as int, i + 1));
            }
            i += 1;
        }
        Ok(v)
    }

    /// Try to clone the buffer content into a fresh owning buffer.
    ///
    /// Follows the element count of the stored data type, so the byte length
    /// must be a whole number of elements; `Bytes`-typed and empty-element
    /// buffers cannot be cloned this way.
    pub fn try_clone(&self) -> (r: Result<Buffer, Error>)
        requires
            self.data_type.size_spec() > 0,
        ensures
            match r {
                Ok(b) => {
                    &&& self.memory_type == MemoryType::Cpu
                    &&& self.data@.len() as int % self.data_type.size_spec() as int == 0
                    &&& b.data@ == self.data@
                    &&& b.data_type == self.data_type
                    &&& b.memory_type == self.memory_type
                    &&& b.owned
                },
                Err(e) => if self.memory_type != MemoryType::Cpu {
                    e.code == ErrorCode::Unsupported
                } else {
                    e.code == ErrorCode::Internal && self.data@.len() as int
                        % self.data_type.size_spec() as int != 0
                },
            },
    {
        if !matches!(self.memory_type, MemoryType::Cpu) {
            return Err(Error::wrong_type(self.memory_type));
        }
        let size = self.data_type.size() as usize;
        let count = self.data.len() / size;
        proof {
            let len = self.data@.len() as int;
            let sz = size as int;
            vstd::arithmetic::div_mod::lemma_fundamental_div_mod(len, sz);
            vstd::arithmetic::div_mod::lemma_mod_division_less_than_divisor(len, sz);
            assert(count * sz == sz * count) by (nonlinear_arith);
            assert(count * self.data_type.size_spec() <= len);
        }
        let mut res = match Buffer::alloc_with_data_type(count, self.memory_type, self.data_type) {
            Ok(b) => b,
            Err(e) => {
                return Err(e);
            },
        };
        if res.data.len() < self.data.len() {
            return Err(
                Error::new(ErrorCode::Internal, "copy_from_slice error: size mismatch!"),
            );
        }
        match res.copy_bytes_from(0, self.data.as_slice()) {
            Ok(()) => {
                proof {
                    assert(res.data@ =~= self.data@);
                }
                Ok(res)
            },
            Err(e) => Err(e),
        }
    }

    /// Move this buffer's content to host memory. Host buffers pass through
    /// unchanged; nothing else can exist in this build, so any other location
    /// is refused with `Unsupported`.
    pub fn into_cpu(self) -> (r: Result<Buffer, Error>)
        ensures
            match r {
                Ok(b) => self.memory_type == MemoryType::Cpu && b == self,
                Err(e) => self.memory_type != MemoryType::Cpu && e.code
                    == ErrorCode::Unsupported,
            },
    {
        if !matches!(self.memory_type, MemoryType::Cpu) {
            return Err(Error::wrong_type(self.memory_type));
        }
        Ok(self)
    }
}


impl Buffer {
    /// Allocate a zero-initialized buffer of `count` elements of `T`.
    ///
    /// Only host memory can be allocated in this build: any other location is
    /// refused with `Unsupported` and nothing is allocated.
    pub fn allocate<T: Sample>(count: usize, memory_type: MemoryType) -> (r: Result<Buffer, Error>)
        requires
            count * T::data_type_spec().size_spec() <= usize::MAX,
        ensures
            match r {
                Ok(b) => {
                    &&& memory_type == MemoryType::Cpu
                    &&& b.data@.len() == count * T::data_type_spec().size_spec()
                    &&& forall|i: int| 0 <= i < b.data@.len() ==> b.data@[i] == 0
                    &&& b.data_type == T::data_type_spec()
                    &&& b.memory_type == memory_type
                    &&& b.owned
                },
                Err(e) => memory_type != MemoryType::Cpu && e.code == ErrorCode::Unsupported,
            },
    {
        Buffer::alloc_with_data_type(count, memory_type, T::data_type())
    }

    /// Create a host buffer of data type `T::data_type_spec()` holding the
    /// encoded elements of `slice`.
    pub fn from<T: Sample>(slice: &Vec<T>) -> (b: Buffer)
        ensures
            b.data@ == encode_seq(slice@),
            b.data_type == T::data_type_spec(),
            b.memory_type == MemoryType::Cpu,
            b.owned,
    {
        let mut data: Vec<u8> = Vec::new();
        let mut i: usize = 0;
        while i < slice.len()
            invariant
                i <= slice@.len(),
                data@ == encode_seq(slice@.take(i as int)),
            decreases slice@.len() - i,
        {
            let mut chunk = slice[i].to_bytes();
            data.append(&mut chunk);
            proof {
                assert(slice@.take(i + 1) =~= slice@.take(i as int).push(slice@[i as int]));
                lemma_encode_seq_push::<T>(slice@.take(i as int), slice@[i as int]);
            }
            i += 1;
        }
        proof {
            assert(slice@.take(slice@.len() as int) =~= slice@);
        }
        Buffer { data, data_type: T::data_type(), memory_type: MemoryType::Cpu, owned: true }
    }

    /// Read the stored elements back as values of `T`, one per encoded
    /// window; a trailing fragment shorter than one element is ignored.
    pub fn read_samples<T: Sample>(&self) -> (r: Vec<T>)
        requires
            self.data_type == T::data_type_spec(),
        ensures
            r@ == decoded_samples::<T>(self.data@),
    {
        let w = T::width();
        proof {
            T::lemma_width();
        }
        let count = self.data.len() / w;
        let ghost len = self.data@.len() as int;
        proof {
            vstd::arithmetic::div_mod::lemma_fundamental_div_mod(len, w as int);
            vstd::arithmetic::div_mod::lemma_mod_division_less_than_divisor(len, w as int);
            assert(count * w == w * count) by (nonlinear_arith);
        }
        let mut r: Vec<T> = Vec::new();
        let mut i: usize = 0;
        while i < count
            invariant
                i <= count,
                w == T::width_spec(),
                1 <= w <= 8,
                count == self.data@.len() as int / w as int,
                count * w <= self.data@.len() <= usize::MAX,
                r@.len() == i,
                forall|j: int|
                    0 <= j < i ==> r@[j] == T::decode_spec(
                        #[trigger] self.data@.subrange(j * w, j * w + w),
                    ),
            decreases count - i,
        {
            proof {
                assert(i * w + w <= count * w) by (nonlinear_arith)
                    requires
                        i < count,
                        w >= 1,
                ;
                assert(i * w >= 0) by (nonlinear_arith)
                    requires
                        i >= 0,
                        w >= 0,
                ;
            }
            let x = T::read_bytes(&self.data, i * w);
            r.push(x);
            i += 1;
        }
        proof {
            assert(r@ =~= decoded_samples::<T>(self.data@));
        }
        r
    }

    /// Copy the encoded elements of `source` into this buffer, starting
    /// `offset` bytes from its beginning. Fails with an `Internal`
    /// size-mismatch error, and changes nothing, when the encoded source does
    /// not fit; refused with `Unsupported` for non-host buffers.
    pub fn copy_from_slice<T: Sample>(&mut self, offset: usize, source: &Vec<T>) -> (r: Result<
        (),
        Error,
    >)
        ensures
            match r {
                Ok(()) => {
                    &&& old(self).memory_type == MemoryType::Cpu
                    &&& offset + source@.len() * T::width_spec() <= old(self).data@.len()
                    &&& final(self).data@ == old(self).data@.subrange(0, offset as int).add(
                        encode_seq(source@),
                    ).add(
                        old(self).data@.subrange(
                            offset + source@.len() * T::width_spec(),
                            old(self).data@.len() as int,
                        ),
                    )
                    &&& final(self).data_type == old(self).data_type
                    &&& final(self).memory_type == old(self).memory_type
                    &&& final(self).owned == old(self).owned
                },
                Err(e) => {
                    &&& *final(self) == *old(self)
                    &&& if old(self).memory_type != MemoryType::Cpu {
                        e.code == ErrorCode::Unsupported
                    } else {
                        e.code == ErrorCode::Internal && offset + source@.len()
                            * T::width_spec() > old(self).data@.len()
                    }
                },
            },
    {
        let mut bytes: Vec<u8> = Vec::new();
        let mut i: usize = 0;
        while i < source.len()
            invariant
                i <= source@.len(),
                bytes@ == encode_seq(source@.take(i as int)),
            decreases source@.len() - i,
        {
            let mut chunk = source[i].to_bytes();
            bytes.append(&mut chunk);
            proof {
                assert(source@.take(i + 1) =~= source@.take(i as int).push(source@[i as int]));
                lemma_encode_seq_push::<T>(source@.take(i as int), source@[i as int]);
            }
            i += 1;
        }
        proof {
            assert(source@.take(source@.len() as int) =~= source@);
            lemma_encode_seq_len::<T>(source@);
        }
        self.copy_bytes_from(offset, bytes.as_slice())
    }
}

} // verus!
