use tritonserver_rs::allocator::{vet_produced, AllocFault, AllocOutcome, AllocatorBridge, ReleaseTicket};
use tritonserver_rs::error::{Error, ErrorCode};
use tritonserver_rs::memory::{Buffer, DataType, MemoryType};
use tritonserver_rs::message::{Model, Shape};
use tritonserver_rs::request::infer::{InferenceError, InflightRequest};
use tritonserver_rs::request::utils::{InputRelease, RequestCanceller};
use tritonserver_rs::request::{Allocator, DefaultAllocator, Request};
use tritonserver_rs::response::{EngineReport, Output, Response};

fn model_with_outputs(outputs: &[(&str, DataType)]) -> Model {
    Model {
        name: "m".to_string(),
        platform: "test".to_string(),
        versions: vec!["1".to_string()],
        inputs: vec![Shape {
            name: "IN".to_string(),
            datatype: DataType::Uint8,
            dims: vec![4],
        }],
        outputs: outputs
            .iter()
            .map(|(name, datatype)| Shape {
                name: name.to_string(),
                datatype: *datatype,
                dims: vec![1],
            })
            .collect(),
    }
}

fn start_inference(outputs: &[(&str, DataType)]) -> InflightRequest {
    let mut request = Request::new(model_with_outputs(outputs));
    request.add_input("IN", Buffer::from::<u8>(&vec![1, 2, 3, 4])).unwrap();
    request.add_default_allocator();
    request.infer_async().unwrap()
}

fn grant(bridge: &mut AllocatorBridge, name: &str, byte_size: usize) -> ReleaseTicket {
    match bridge.allocate(name, MemoryType::Cpu, byte_size) {
        AllocOutcome::Granted(ticket) => ticket,
        AllocOutcome::Refused(e) => panic!("allocation refused: {}", e.message()),
        AllocOutcome::Fatal(f) => panic!("allocator contract breach: {}", f.as_str()),
    }
}

fn output(name: &str, bytes: &[u8]) -> Output {
    Output {
        name: name.to_string(),
        shape: vec![bytes.len() as i64],
        buffer: Buffer {
            data: bytes.to_vec(),
            data_type: DataType::Uint8,
            memory_type: MemoryType::Cpu,
            owned: false,
        },
    }
}

#[test]
fn successful_inference_reports_every_output() {
    let mut inflight = start_inference(&[("A", DataType::Uint32), ("B", DataType::Uint64)]);

    // the engine asks for one buffer per output
    let ticket_a = grant(&mut inflight.bridge, "A", 4);
    let ticket_b = grant(&mut inflight.bridge, "B", 8);
    assert!(inflight.bridge.is_alloc_called());

    // the response arrives
    let report = EngineReport::Success {
        model_name: "m".to_string(),
        model_version: 1,
        id: "r1".to_string(),
        outputs: vec![output("A", &[1, 0, 0, 0]), output("B", &[2, 0, 0, 0, 0, 0, 0, 0])],
        parameters: vec![],
    };
    let response = Response::new(report, 2, &mut inflight.bridge).unwrap();

    assert_eq!(response.get_outputs().len(), 2);
    let names: Vec<&str> = response.get_outputs().iter().map(|o| o.name.as_str()).collect();
    assert!(names.contains(&"A"));
    assert!(names.contains(&"B"));
    assert_ne!(names[0], names[1]);
    assert_eq!(response.get_output("A").unwrap().get_buffer().bytes()[0], 1);
    assert!(response.get_output("C").is_none());
    assert_eq!(response.model(), ("m", 1));
    assert_eq!(response.id(), "r1");
    assert!(response.parameters().is_empty());

    // deleting the response makes the engine release both buffers
    inflight.bridge.release(ticket_a);
    assert!(!inflight.bridge.harvest_ready());
    inflight.bridge.release(ticket_b);
    assert!(inflight.bridge.harvest_ready());

    let returned = response.return_buffers(&mut inflight.bridge);
    let mut names: Vec<&str> = returned.iter().map(|(n, _)| n.as_str()).collect();
    names.sort();
    assert_eq!(names, vec!["A", "B"]);
}

#[test]
fn failed_inference_keeps_allocated_outputs() {
    let mut inflight = start_inference(&[("A", DataType::Uint32), ("B", DataType::Uint64)]);

    // only output A was allocated before the failure, and the engine
    // released it when the failed response was deleted
    let ticket_a = grant(&mut inflight.bridge, "A", 4);
    inflight.bridge.release(ticket_a);
    assert!(inflight.bridge.harvest_ready());

    let report = EngineReport::Failure(Error::new(ErrorCode::Internal, "backend failed"));
    let inference_error = match Response::new(report, 2, &mut inflight.bridge) {
        Err(e) => e,
        Ok(_) => panic!("a failure report must not produce a response"),
    };

    assert_eq!(inference_error.error.code(), ErrorCode::Internal);
    assert_eq!(inference_error.output_buffers.len(), 1);
    assert_eq!(inference_error.output_buffers[0].0, "A");
}

#[test]
fn zero_outputs_never_wait() {
    let mut inflight = start_inference(&[]);
    // nothing was ever granted: harvesting is ready from the start
    assert!(inflight.bridge.harvest_ready());

    let report = EngineReport::Success {
        model_name: "m".to_string(),
        model_version: 1,
        id: String::new(),
        outputs: vec![],
        parameters: vec![],
    };
    let response = Response::new(report, 0, &mut inflight.bridge).unwrap();
    assert_eq!(response.get_outputs().len(), 0);
    let returned = response.return_buffers(&mut inflight.bridge);
    assert!(returned.is_empty());
}

#[test]
fn unknown_output_is_refused_before_the_user_allocator() {
    let mut inflight = start_inference(&[("A", DataType::Uint32)]);
    match inflight.bridge.allocate("UNKNOWN", MemoryType::Cpu, 4) {
        AllocOutcome::Refused(e) => assert_eq!(e.code(), ErrorCode::Internal),
        _ => panic!("an unknown output name must be refused"),
    }
    assert!(!inflight.bridge.is_alloc_called());
}

struct ShortAllocator;

impl Allocator for ShortAllocator {
    fn allocate(
        &mut self,
        _tensor_name: String,
        requested_memory_type: MemoryType,
        byte_size: usize,
        data_type: DataType,
    ) -> Result<Buffer, Error> {
        // one byte short of what was asked: a contract breach
        let mut inner = DefaultAllocator;
        inner.allocate(_tensor_name, requested_memory_type, byte_size - 1, data_type)
    }
}

#[test]
fn undersized_allocation_is_fatal() {
    let mut request = Request::new(model_with_outputs(&[("A", DataType::Uint32)]));
    request.add_input("IN", Buffer::from::<u8>(&vec![0; 4])).unwrap();
    request.add_allocator(Box::new(ShortAllocator));
    let mut inflight = request.infer_async().unwrap();
    assert!(matches!(
        inflight.bridge.allocate("A", MemoryType::Cpu, 4),
        AllocOutcome::Fatal(_)
    ));
}

struct FailingAllocator;

impl Allocator for FailingAllocator {
    fn allocate(
        &mut self,
        _tensor_name: String,
        _requested_memory_type: MemoryType,
        _byte_size: usize,
        _data_type: DataType,
    ) -> Result<Buffer, Error> {
        Err(Error::new(ErrorCode::Unavailable, "the pool is exhausted"))
    }
}

#[test]
fn allocator_error_is_propagated() {
    let mut request = Request::new(model_with_outputs(&[("A", DataType::Uint32)]));
    request.add_input("IN", Buffer::from::<u8>(&vec![0; 4])).unwrap();
    request.add_allocator(Box::new(FailingAllocator));
    let mut inflight = request.infer_async().unwrap();
    match inflight.bridge.allocate("A", MemoryType::Cpu, 4) {
        AllocOutcome::Refused(e) => {
            // the user allocator's own error comes back, untouched
            assert_eq!(e.code(), ErrorCode::Unavailable);
            assert_eq!(e.message(), "the pool is exhausted");
        }
        _ => panic!("the user error must be propagated"),
    }
    // the failure carries no buffers: none was granted
    let report = EngineReport::Failure(Error::new(ErrorCode::Unavailable, "the pool is exhausted"));
    let inference_error = Response::new(report, 1, &mut inflight.bridge).unwrap_err();
    assert!(inference_error.output_buffers.is_empty());
}

#[test]
fn default_allocator_allocates_exactly() {
    let mut allocator = DefaultAllocator;
    let buffer = allocator
        .allocate("A".to_string(), MemoryType::Cpu, 10, DataType::Uint16)
        .unwrap();
    assert_eq!(buffer.size(), 10);
    assert_eq!(buffer.data_type(), DataType::Uint16);
    assert!(buffer.bytes().iter().all(|&x| x == 0));

    let err = allocator
        .allocate("A".to_string(), MemoryType::Gpu, 10, DataType::Uint16)
        .unwrap_err();
    assert_eq!(err.code(), ErrorCode::Unsupported);
}

#[test]
fn cancellation_is_issued_exactly_once() {
    let mut canceller = RequestCanceller::new();
    assert!(!canceller.is_cancelled());
    // giving up before completion issues the one cancellation call
    assert!(canceller.request_cancel());
    assert!(canceller.is_cancelled());
    // a second attempt issues nothing
    assert!(!canceller.request_cancel());
}

#[test]
fn no_cancellation_after_completion() {
    let mut canceller = RequestCanceller::new();
    canceller.mark_inferenced();
    assert!(!canceller.request_cancel());
    assert!(!canceller.is_cancelled());
}

#[test]
fn input_release_resolves_once() {
    let mut inflight = start_inference(&[("A", DataType::Uint32)]);

    let released = vec![("IN".to_string(), Buffer::from::<u8>(&vec![1, 2, 3, 4]))];
    let first = inflight.future.get_input_release();
    assert!(matches!(first, InputRelease::Pending));
    let resolved = first.resolve(released);
    assert_eq!(resolved.len(), 1);
    assert_eq!(resolved[0].0, "IN");

    // asked a second time: an empty map, not a hang and not a panic
    let second = inflight.future.get_input_release();
    let delivered_late = vec![("IN".to_string(), Buffer::from::<u8>(&vec![9]))];
    assert!(second.resolve(delivered_late).is_empty());
}


fn gpu_buffer(len: usize) -> Buffer {
    Buffer {
        data: vec![0; len],
        data_type: DataType::Uint8,
        memory_type: MemoryType::Gpu,
        owned: true,
    }
}

#[test]
fn produced_buffers_are_classified_exactly() {
    // the user's own error is refused onward unchanged
    let produced = Err(Error::new(ErrorCode::Unavailable, "cap reached"));
    match vet_produced(produced, "A", MemoryType::Cpu, 4) {
        AllocOutcome::Refused(e) => {
            assert_eq!(e.code(), ErrorCode::Unavailable);
            assert_eq!(e.message(), "cap reached");
        }
        _ => panic!("a user error must be refused onward"),
    }

    // a buffer one byte short of the request is a fatal breach
    let produced = Ok(Buffer::from::<u8>(&vec![0; 3]));
    match vet_produced(produced, "A", MemoryType::Cpu, 4) {
        AllocOutcome::Fatal(fault) => assert_eq!(fault, AllocFault::TooSmall),
        _ => panic!("an undersized buffer must be fatal"),
    }

    // a device buffer for a host request crosses the boundary: fatal
    let produced = Ok(gpu_buffer(4));
    match vet_produced(produced, "A", MemoryType::Cpu, 4) {
        AllocOutcome::Fatal(fault) => assert_eq!(fault, AllocFault::LocationCrossing),
        _ => panic!("a boundary crossing must be fatal"),
    }
    let produced = Ok(Buffer::from::<u8>(&vec![0; 4]));
    match vet_produced(produced, "A", MemoryType::Gpu, 4) {
        AllocOutcome::Fatal(fault) => assert_eq!(fault, AllocFault::LocationCrossing),
        _ => panic!("a boundary crossing must be fatal"),
    }

    // a fitting buffer is granted under a ticket with its name and bytes
    let produced = Ok(Buffer::from::<u8>(&vec![7, 8, 9, 10, 11]));
    match vet_produced(produced, "A", MemoryType::Cpu, 4) {
        AllocOutcome::Granted(ticket) => {
            assert_eq!(ticket.name(), "A");
            assert_eq!(ticket.buffer().bytes().as_slice(), &[7, 8, 9, 10, 11]);
        }
        _ => panic!("a fitting buffer must be granted"),
    }
}

struct WrongSideAllocator;

impl Allocator for WrongSideAllocator {
    fn allocate(
        &mut self,
        _tensor_name: String,
        _requested_memory_type: MemoryType,
        byte_size: usize,
        _data_type: DataType,
    ) -> Result<Buffer, Error> {
        Ok(gpu_buffer(byte_size))
    }
}

#[test]
fn boundary_crossing_allocation_is_fatal() {
    let mut request = Request::new(model_with_outputs(&[("A", DataType::Uint32)]));
    request.add_input("IN", Buffer::from::<u8>(&vec![0; 4])).unwrap();
    request.add_allocator(Box::new(WrongSideAllocator));
    let mut inflight = request.infer_async().unwrap();
    match inflight.bridge.allocate("A", MemoryType::Cpu, 4) {
        AllocOutcome::Fatal(fault) => assert_eq!(fault, AllocFault::LocationCrossing),
        _ => panic!("a device buffer for a host request must be fatal"),
    }
}

#[test]
fn inference_error_without_buffers() {
    let e = InferenceError::from_error(Error::new(ErrorCode::Unknown, "lost"));
    assert_eq!(e.error.code(), ErrorCode::Unknown);
    assert!(e.output_buffers.is_empty());
}
