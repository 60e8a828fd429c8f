use vkinit::device::validation_layer_name;
use vkinit::error::{DeviceError, SuitabilityError};
use vkinit::inspect::{
    CheckStep, DeviceAnswer, DeviceCheck, DeviceQuery, DeviceSearch, LookupStep, QueueLookup,
    SearchStep,
};
use vkinit::queue::QueueFamilyIndices;
use vkinit::swapchain::{Extent2D, SurfaceCapabilities, SurfaceFormat, SwapchainSupport};

fn support(formats: usize) -> SwapchainSupport {
    SwapchainSupport {
        capabilities: SurfaceCapabilities {
            min_image_count: 2,
            max_image_count: 0,
            current_extent: Extent2D { width: 800, height: 600 },
            min_image_extent: Extent2D { width: 1, height: 1 },
            max_image_extent: Extent2D { width: 4096, height: 4096 },
            current_transform: 1,
        },
        formats: vec![SurfaceFormat { format: 44, color_space: 0 }; formats],
        present_modes: vec![2],
    }
}

fn ask(step: CheckStep) -> DeviceQuery {
    match step {
        CheckStep::Ask(q) => q,
        CheckStep::Verdict(v) => panic!("unexpected verdict {:?}", v),
    }
}

fn verdict(step: CheckStep) -> Result<(), DeviceError> {
    match step {
        CheckStep::Verdict(v) => v,
        CheckStep::Ask(q) => panic!("unexpected query {:?}", q),
    }
}

#[test]
fn suitable_device_query_order() {
    let (mut c, step) = DeviceCheck::start();
    assert_eq!(ask(step), DeviceQuery::QueueFamilies);
    let step = c.step(&DeviceAnswer::QueueFamilies(vec![0b110, 0b111, 0b001]));
    assert_eq!(ask(step), DeviceQuery::SurfaceSupport(0));
    let step = c.step(&DeviceAnswer::SurfaceSupport(false));
    assert_eq!(ask(step), DeviceQuery::SurfaceSupport(1));
    let step = c.step(&DeviceAnswer::SurfaceSupport(true));
    assert_eq!(ask(step), DeviceQuery::SwapchainSupport);
    let step = c.step(&DeviceAnswer::SwapchainSupport(Ok(support(1))));
    assert_eq!(ask(step), DeviceQuery::Extensions);
    let step = c.step(&DeviceAnswer::Extensions(Ok(vec![b"VK_KHR_swapchain".to_vec()])));
    assert_eq!(ask(step), DeviceQuery::DeviceType);
    let step = c.step(&DeviceAnswer::DeviceType(2));
    assert_eq!(ask(step), DeviceQuery::GeometryShader);
    let step = c.step(&DeviceAnswer::GeometryShader(1));
    assert_eq!(verdict(step), Ok(()));
    // A finished check keeps its verdict.
    assert_eq!(verdict(c.step(&DeviceAnswer::DeviceType(1))), Ok(()));
}

#[test]
fn check_stops_at_first_failure() {
    let (mut c, _) = DeviceCheck::start();
    c.step(&DeviceAnswer::QueueFamilies(vec![1]));
    c.step(&DeviceAnswer::SurfaceSupport(true));
    let step = c.step(&DeviceAnswer::SwapchainSupport(Ok(support(0))));
    assert_eq!(
        verdict(step),
        Err(DeviceError::Unsuitable(SuitabilityError("Your swap chain does not work")))
    );

    let (mut c, _) = DeviceCheck::start();
    c.step(&DeviceAnswer::QueueFamilies(vec![1]));
    c.step(&DeviceAnswer::SurfaceSupport(true));
    let step = c.step(&DeviceAnswer::SwapchainSupport(Err(-1000000000)));
    assert_eq!(verdict(step), Err(DeviceError::Vulkan(-1000000000)));
}

#[test]
fn check_without_queues() {
    let queues = Err(DeviceError::Unsuitable(SuitabilityError(
        "The queues on your device are not supported",
    )));
    let (mut c, _) = DeviceCheck::start();
    assert_eq!(verdict(c.step(&DeviceAnswer::QueueFamilies(vec![]))), queues);

    // No graphics family: the presenting family is still looked for first.
    let (mut c, _) = DeviceCheck::start();
    assert_eq!(ask(c.step(&DeviceAnswer::QueueFamilies(vec![2, 4]))), DeviceQuery::SurfaceSupport(0));
    assert_eq!(verdict(c.step(&DeviceAnswer::SurfaceSupport(true))), queues);

    // No presenting family.
    let (mut c, _) = DeviceCheck::start();
    c.step(&DeviceAnswer::QueueFamilies(vec![1, 1]));
    c.step(&DeviceAnswer::SurfaceSupport(false));
    assert_eq!(verdict(c.step(&DeviceAnswer::SurfaceSupport(false))), queues);
}

#[test]
fn mismatched_answer_repeats_query() {
    let (mut c, _) = DeviceCheck::start();
    assert_eq!(ask(c.step(&DeviceAnswer::DeviceType(2))), DeviceQuery::QueueFamilies);
    assert_eq!(ask(c.pending()), DeviceQuery::QueueFamilies);
}

#[test]
fn search_chooses_first_suitable() {
    let (mut s, step) = DeviceSearch::start(3);
    assert_eq!(step, SearchStep::Check(0));
    assert_eq!(s.record(false), SearchStep::Check(1));
    assert_eq!(s.record(true), SearchStep::Chosen(1));
}

#[test]
fn search_finds_none() {
    let (_, step) = DeviceSearch::start(0);
    assert_eq!(step, SearchStep::NoneSuitable);
    let (mut s, _) = DeviceSearch::start(2);
    assert_eq!(s.record(false), SearchStep::Check(1));
    assert_eq!(s.record(false), SearchStep::NoneSuitable);
}

#[test]
fn validation_layer_bytes() {
    assert_eq!(validation_layer_name(), b"VK_LAYER_KHRONOS_validation".to_vec());
}

fn lookup_ask(step: LookupStep) -> DeviceQuery {
    match step {
        LookupStep::Ask(q) => q,
        LookupStep::Found(r) => panic!("unexpected outcome {:?}", r),
    }
}

fn lookup_found(step: LookupStep) -> Result<QueueFamilyIndices, SuitabilityError> {
    match step {
        LookupStep::Found(r) => r,
        LookupStep::Ask(q) => panic!("unexpected query {:?}", q),
    }
}

#[test]
fn lookup_asks_support_until_first_presenting_family() {
    let (mut l, step) = QueueLookup::start();
    assert_eq!(lookup_ask(step), DeviceQuery::QueueFamilies);
    let step = l.step(&DeviceAnswer::QueueFamilies(vec![0b100, 0b011, 0b001, 0b001]));
    assert_eq!(lookup_ask(step), DeviceQuery::SurfaceSupport(0));
    assert_eq!(lookup_ask(l.step(&DeviceAnswer::SurfaceSupport(false))), DeviceQuery::SurfaceSupport(1));
    assert_eq!(lookup_ask(l.step(&DeviceAnswer::SurfaceSupport(false))), DeviceQuery::SurfaceSupport(2));
    let found = lookup_found(l.step(&DeviceAnswer::SurfaceSupport(true)));
    assert_eq!(found, Ok(QueueFamilyIndices { graphics: 1, present: 2 }));
}

#[test]
fn lookup_failures() {
    let failed = Err(SuitabilityError("The queues on your device are not supported"));
    let (mut l, _) = QueueLookup::start();
    assert_eq!(lookup_found(l.step(&DeviceAnswer::QueueFamilies(vec![]))), failed);

    let (mut l, _) = QueueLookup::start();
    l.step(&DeviceAnswer::QueueFamilies(vec![2]));
    assert_eq!(lookup_found(l.step(&DeviceAnswer::SurfaceSupport(true))), failed);

    let (mut l, _) = QueueLookup::start();
    l.step(&DeviceAnswer::QueueFamilies(vec![1, 1]));
    l.step(&DeviceAnswer::SurfaceSupport(false));
    assert_eq!(lookup_found(l.step(&DeviceAnswer::SurfaceSupport(false))), failed);
    assert_eq!(lookup_found(l.pending()), failed);
}
