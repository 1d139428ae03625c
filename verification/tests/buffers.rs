use tritonserver_rs::error::ErrorCode;
use tritonserver_rs::memory::{Buffer, Byte, DataType, MemoryType};

#[test]
fn allocate_host_is_sized_and_zeroed() {
    let b = Buffer::alloc_with_data_type(3, MemoryType::Cpu, DataType::Uint16).unwrap();
    assert_eq!(b.size(), 3 * DataType::Uint16.size() as usize);
    assert_eq!(b.size(), 6);
    assert!(b.bytes().iter().all(|&x| x == 0));
    assert_eq!(b.data_type(), DataType::Uint16);
    assert_eq!(b.memory_type(), MemoryType::Cpu);
    assert!(!b.is_empty());
}

#[test]
fn allocate_typed_is_sized_and_zeroed() {
    let b = Buffer::allocate::<u32>(5, MemoryType::Cpu).unwrap();
    assert_eq!(b.size(), 20);
    assert!(b.bytes().iter().all(|&x| x == 0));
    assert_eq!(b.data_type(), DataType::Uint32);
}

#[test]
fn allocate_device_is_refused() {
    let err = Buffer::alloc_with_data_type(4, MemoryType::Gpu, DataType::Uint8).unwrap_err();
    assert_eq!(err.code(), ErrorCode::Unsupported);
    let err = Buffer::allocate::<u8>(4, MemoryType::Pinned).unwrap_err();
    assert_eq!(err.code(), ErrorCode::Unsupported);
}

#[test]
fn copy_bytes_exact_and_boundary() {
    let mut b = Buffer::alloc_with_data_type(4, MemoryType::Cpu, DataType::Uint8).unwrap();
    b.copy_bytes_from(2, &[7, 9]).unwrap();
    assert_eq!(b.bytes().as_slice(), &[0, 0, 7, 9]);

    // one byte over the end: refused, buffer unchanged
    let err = b.copy_bytes_from(3, &[1, 2]).unwrap_err();
    assert_eq!(err.code(), ErrorCode::Internal);
    assert_eq!(b.bytes().as_slice(), &[0, 0, 7, 9]);

    // exactly at the end: accepted
    b.copy_bytes_from(2, &[1, 2]).unwrap();
    assert_eq!(b.bytes().as_slice(), &[0, 0, 1, 2]);
}

#[test]
fn copy_from_slice_typed() {
    let mut b = Buffer::alloc_with_data_type(4, MemoryType::Cpu, DataType::Uint16).unwrap();
    let src: Vec<u16> = vec![0x1234, 0xabcd];
    b.copy_from_slice(2, &src).unwrap();
    assert_eq!(b.bytes().as_slice(), &[0, 0, 0x34, 0x12, 0xcd, 0xab, 0, 0]);

    let too_long: Vec<u16> = vec![1, 2, 3, 4];
    let err = b.copy_from_slice(2, &too_long).unwrap_err();
    assert_eq!(err.code(), ErrorCode::Internal);
}

#[test]
fn round_trip_unsigned() {
    let src: Vec<u32> = vec![0, 1, 0xdead_beef, u32::MAX];
    let b = Buffer::from::<u32>(&src);
    assert_eq!(b.data_type(), DataType::Uint32);
    assert_eq!(b.memory_type(), MemoryType::Cpu);
    assert_eq!(b.size(), 16);
    assert_eq!(b.read_samples::<u32>(), src);

    let src: Vec<u64> = vec![u64::MAX, 0, 0x0123_4567_89ab_cdef];
    assert_eq!(Buffer::from::<u64>(&src).read_samples::<u64>(), src);

    let src: Vec<u16> = vec![0, 0xffff, 0x8000];
    assert_eq!(Buffer::from::<u16>(&src).read_samples::<u16>(), src);

    let src: Vec<u8> = vec![0, 255, 128];
    assert_eq!(Buffer::from::<u8>(&src).read_samples::<u8>(), src);
}

#[test]
fn round_trip_signed() {
    let src: Vec<i32> = vec![0, -1, i32::MIN, i32::MAX];
    assert_eq!(Buffer::from::<i32>(&src).read_samples::<i32>(), src);

    let src: Vec<i64> = vec![i64::MIN, -42, 0, i64::MAX];
    assert_eq!(Buffer::from::<i64>(&src).read_samples::<i64>(), src);

    let src: Vec<i16> = vec![i16::MIN, -1, 1, i16::MAX];
    assert_eq!(Buffer::from::<i16>(&src).read_samples::<i16>(), src);

    let src: Vec<i8> = vec![i8::MIN, -1, 0, i8::MAX];
    assert_eq!(Buffer::from::<i8>(&src).read_samples::<i8>(), src);
}

#[test]
fn round_trip_bool_and_byte() {
    let src: Vec<bool> = vec![true, false, true];
    let b = Buffer::from::<bool>(&src);
    assert_eq!(b.data_type(), DataType::Bool);
    assert_eq!(b.read_samples::<bool>(), src);

    let src: Vec<Byte> = vec![Byte(0), Byte(200), Byte(255)];
    let b = Buffer::from::<Byte>(&src);
    assert_eq!(b.data_type(), DataType::Bytes);
    assert_eq!(b.read_samples::<Byte>(), src);
}

#[test]
fn signed_bytes_are_twos_complement() {
    let src: Vec<i16> = vec![-1, -2];
    let b = Buffer::from::<i16>(&src);
    assert_eq!(b.bytes().as_slice(), &[0xff, 0xff, 0xfe, 0xff]);
}

#[test]
fn mutable_bytes_write_through() {
    let mut b = Buffer::from::<u8>(&vec![1, 2, 3]);
    b.bytes_mut()[1] = 9;
    assert_eq!(b.bytes().as_slice(), &[1, 9, 3]);
}

#[test]
fn owned_slice_range() {
    let src: Vec<u8> = vec![1, 2, 3, 4, 5];
    let b = Buffer::from::<u8>(&src);
    assert_eq!(b.get_owned_slice(1, 4).unwrap(), vec![2, 3, 4]);
    assert_eq!(b.get_owned_slice(0, 5).unwrap(), src);
    assert_eq!(b.get_owned_slice(2, 2).unwrap(), Vec::<u8>::new());
    let err = b.get_owned_slice(2, 6).unwrap_err();
    assert_eq!(err.code(), ErrorCode::InvalidArg);
}

#[test]
fn clone_content() {
    let src: Vec<u16> = vec![10, 20, 30];
    let b = Buffer::from::<u16>(&src);
    let c = b.try_clone().unwrap();
    assert_eq!(c.bytes(), b.bytes());
    assert_eq!(c.data_type(), b.data_type());
    assert!(c.owned);
}

#[test]
fn into_cpu_passthrough() {
    let b = Buffer::from::<u8>(&vec![1, 2]);
    let b = b.into_cpu().unwrap();
    assert_eq!(b.bytes().as_slice(), &[1, 2]);
}

#[test]
fn data_type_sizes_and_names() {
    assert_eq!(DataType::Bool.size(), 1);
    assert_eq!(DataType::Uint8.size(), 1);
    assert_eq!(DataType::Uint16.size(), 2);
    assert_eq!(DataType::Uint32.size(), 4);
    assert_eq!(DataType::Uint64.size(), 8);
    assert_eq!(DataType::Int8.size(), 1);
    assert_eq!(DataType::Int16.size(), 2);
    assert_eq!(DataType::Int32.size(), 4);
    assert_eq!(DataType::Int64.size(), 8);
    assert_eq!(DataType::Fp16.size(), 2);
    assert_eq!(DataType::Fp32.size(), 4);
    assert_eq!(DataType::Fp64.size(), 8);
    assert_eq!(DataType::Bytes.size(), 0);
    assert_eq!(DataType::Bf16.size(), 2);

    assert_eq!(DataType::Fp32.as_str(), "FP32");
    assert_eq!(DataType::try_from_str("FP32").unwrap(), DataType::Fp32);
    assert_eq!(DataType::try_from_str("UINT64").unwrap(), DataType::Uint64);
    let err = DataType::try_from_str("INVALID").unwrap_err();
    assert_eq!(err.code(), ErrorCode::InvalidArg);
    let err = DataType::try_from_str("no such type").unwrap_err();
    assert_eq!(err.code(), ErrorCode::InvalidArg);
}

#[test]
fn memory_type_names() {
    assert_eq!(MemoryType::Cpu.as_str(), "CPU");
    assert_eq!(MemoryType::Pinned.as_str(), "CPU_PINNED");
    assert_eq!(MemoryType::Gpu.as_str(), "GPU");
}
