//! The suitability check, the device search and the queue-family lookup,
//! made one Vulkan query at a time: each step takes the answer to the last query and gives the next
//! query or the verdict, so that queries are made in the order, and only as
//! far as, the decision needs them.
use vstd::prelude::*;
use crate::device::{
    check_physical_device_extensions, extensions_missing, no_geometry_shader, not_discrete,
    required_device_extensions, swapchain_unsupported, unsuitable,
};
use crate::error::{DeviceError, SuitabilityError};
use crate::names::{name_views, names_contain_all};
use crate::device::{device_verdict, suitable_device, DeviceInfo};
use crate::queue::{
    graphics_family, has_graphics, present_family, queue_family_indices, queues_unsupported,
    QueueFamily, QueueFamilyIndices,
};
use crate::search::{first_index, is_first, lemma_first_index_is, lemma_first_index_none};
use crate::swapchain::SwapchainSupport;
use crate::vulkan::{
    device_type_discrete_gpu, queue_flags_have_graphics, vk_true, DEVICE_TYPE_DISCRETE_GPU,
    QUEUE_GRAPHICS_BIT, VK_TRUE,
};

verus! {

/// A query about one physical device.
#[derive(Clone, Copy, Debug, PartialEq, Eq, Structural)]
pub enum DeviceQuery {
    /// The flags of each queue family.
    QueueFamilies,
    /// Whether the family with this index can present to the surface.
    SurfaceSupport(u32),
    /// The surface capabilities, formats and present modes.
    SwapchainSupport,
    /// The names of the device's extensions.
    Extensions,
    /// The device type.
    DeviceType,
    /// The geometry-shader feature.
    GeometryShader,
}

/// The answer to a `DeviceQuery`; a failed query carries its raw
/// `vk::Result` code (a failed surface-support query counts as `false`).
#[derive(Debug)]
pub enum DeviceAnswer {
    QueueFamilies(Vec<u32>),
    SurfaceSupport(bool),
    SwapchainSupport(Result<SwapchainSupport, i32>),
    Extensions(Result<Vec<Vec<u8>>, i32>),
    DeviceType(i32),
    GeometryShader(u32),
}

/// What the check reads of an answer: the families' flags, the support
/// bit, whether the swapchain support offers a format and a present mode,
/// whether the required extensions are there, the type, the feature.
pub enum AnswerView {
    QueueFamilies(Seq<u32>),
    SurfaceSupport(bool),
    SwapchainSupport(Result<bool, i32>),
    Extensions(Result<bool, i32>),
    DeviceType(i32),
    GeometryShader(u32),
}

/// Where a check stands.
#[derive(Clone, Copy, Debug)]
pub enum CheckStage {
    /// Waiting for the queue families.
    Families,
    /// Waiting for the surface support of family `next_family`.
    Presenting,
    Swapchain,
    Extensions,
    DeviceType,
    GeometryShader,
    /// The verdict is given.
    Finished(Result<(), DeviceError>),
}

/// The state of one device's check.
#[derive(Clone, Copy, Debug)]
pub struct DeviceCheck {
    pub stage: CheckStage,
    /// Whether some family supports graphics.
    pub has_graphics: bool,
    /// How many queue families the device has.
    pub family_count: usize,
    /// The family whose surface support was asked last.
    pub next_family: usize,
}

/// What a step gives: the next query, or the verdict.
#[derive(Clone, Copy, Debug)]
pub enum CheckStep {
    Ask(DeviceQuery),
    Verdict(Result<(), DeviceError>),
}

/// What the check reads of an answer.
pub open spec fn answer_view(answer: DeviceAnswer) -> AnswerView {
    match answer {
        DeviceAnswer::QueueFamilies(flags) => AnswerView::QueueFamilies(flags@),
        DeviceAnswer::SurfaceSupport(b) => AnswerView::SurfaceSupport(b),
        DeviceAnswer::SwapchainSupport(r) => AnswerView::SwapchainSupport(
            match r {
                Ok(s) => Ok(s.formats@.len() > 0 && s.present_modes@.len() > 0),
                Err(code) => Err(code),
            },
        ),
        DeviceAnswer::Extensions(r) => AnswerView::Extensions(
            match r {
                Ok(names) => Ok(names_contain_all(name_views(names@), required_device_extensions())),
                Err(code) => Err(code),
            },
        ),
        DeviceAnswer::DeviceType(t) => AnswerView::DeviceType(t),
        DeviceAnswer::GeometryShader(g) => AnswerView::GeometryShader(g),
    }
}

/// The query a check at this state waits for, or its verdict.
pub open spec fn pending(s: DeviceCheck) -> CheckStep {
    match s.stage {
        CheckStage::Families => CheckStep::Ask(DeviceQuery::QueueFamilies),
        CheckStage::Presenting => CheckStep::Ask(DeviceQuery::SurfaceSupport(s.next_family as u32)),
        CheckStage::Swapchain => CheckStep::Ask(DeviceQuery::SwapchainSupport),
        CheckStage::Extensions => CheckStep::Ask(DeviceQuery::Extensions),
        CheckStage::DeviceType => CheckStep::Ask(DeviceQuery::DeviceType),
        CheckStage::GeometryShader => CheckStep::Ask(DeviceQuery::GeometryShader),
        CheckStage::Finished(v) => CheckStep::Verdict(v),
    }
}

/// A check that has given its verdict.
pub open spec fn finish(s: DeviceCheck, v: Result<(), DeviceError>) -> (DeviceCheck, CheckStep) {
    (DeviceCheck { stage: CheckStage::Finished(v), ..s }, CheckStep::Verdict(v))
}

/// A check moved to a stage, asking its query.
pub open spec fn advance(s: DeviceCheck, stage: CheckStage) -> (DeviceCheck, CheckStep) {
    let t = DeviceCheck { stage, ..s };
    (t, pending(t))
}

/// Some family's flags hold `GRAPHICS`.
pub open spec fn any_graphics(flags: Seq<u32>) -> bool {
    exists|i: int| 0 <= i < flags.len() && flags[i] & QUEUE_GRAPHICS_BIT == QUEUE_GRAPHICS_BIT
}

/// One step of the check: the state after the answer, and the next query
/// or the verdict. An answer that does not answer the pending query leaves
/// the state as it is.
pub open spec fn check_step(s: DeviceCheck, a: AnswerView) -> (DeviceCheck, CheckStep) {
    let queues = unsuitable(queues_unsupported());
    match (s.stage, a) {
        (CheckStage::Families, AnswerView::QueueFamilies(flags)) => {
            let t = DeviceCheck {
                stage: CheckStage::Presenting,
                has_graphics: any_graphics(flags),
                family_count: flags.len() as usize,
                next_family: 0,
            };
            if flags.len() == 0 {
                finish(t, queues)
            } else {
                (t, pending(t))
            }
        },
        (CheckStage::Presenting, AnswerView::SurfaceSupport(b)) => {
            if b {
                if s.has_graphics {
                    advance(s, CheckStage::Swapchain)
                } else {
                    finish(s, queues)
                }
            } else if s.next_family + 1 < s.family_count {
                let t = DeviceCheck { next_family: (s.next_family + 1) as usize, ..s };
                (t, pending(t))
            } else {
                finish(s, queues)
            }
        },
        (CheckStage::Swapchain, AnswerView::SwapchainSupport(r)) => match r {
            Err(code) => finish(s, Err(DeviceError::Vulkan(code))),
            Ok(usable) => if usable {
                advance(s, CheckStage::Extensions)
            } else {
                finish(s, unsuitable(swapchain_unsupported()))
            },
        },
        (CheckStage::Extensions, AnswerView::Extensions(r)) => match r {
            Err(code) => finish(s, Err(DeviceError::Vulkan(code))),
            Ok(present) => if present {
                advance(s, CheckStage::DeviceType)
            } else {
                finish(s, unsuitable(extensions_missing()))
            },
        },
        (CheckStage::DeviceType, AnswerView::DeviceType(t)) => if t == DEVICE_TYPE_DISCRETE_GPU {
            advance(s, CheckStage::GeometryShader)
        } else {
            finish(s, unsuitable(not_discrete()))
        },
        (CheckStage::GeometryShader, AnswerView::GeometryShader(g)) => if g == VK_TRUE {
            finish(s, Ok(()))
        } else {
            finish(s, unsuitable(no_geometry_shader()))
        },
        _ => (s, pending(s)),
    }
}

/// The check's first state.
pub open spec fn check_start() -> DeviceCheck {
    DeviceCheck { stage: CheckStage::Families, has_graphics: false, family_count: 0, next_family: 0 }
}

/// Whether some family's flags hold `GRAPHICS`, by a scan.
fn flags_have_graphics(flags: &Vec<u32>) -> (r: bool)
    ensures
        r == any_graphics(flags@),
{
    let mut i: usize = 0;
    while i < flags.len()
        invariant
            0 <= i <= flags@.len(),
            forall|j: int|
                0 <= j < i ==> #[trigger] flags@[j] & QUEUE_GRAPHICS_BIT != QUEUE_GRAPHICS_BIT,
        decreases flags@.len() - i,
    {
        if queue_flags_have_graphics(flags[i]) {
            return true;
        }
        i += 1;
    }
    false
}

impl DeviceCheck {
    /// A check that first asks for the queue families.
    pub fn start() -> (r: (DeviceCheck, CheckStep))
        ensures
            r.0 == check_start(),
            r.1 == pending(check_start()),
    {
        let s = DeviceCheck {
            stage: CheckStage::Families,
            has_graphics: false,
            family_count: 0,
            next_family: 0,
        };
        (s, CheckStep::Ask(DeviceQuery::QueueFamilies))
    }

    /// Takes the answer to the pending query; gives the next query or the
    /// verdict.
    pub fn step(&mut self, answer: &DeviceAnswer) -> (r: CheckStep)
        ensures
            (*final(self), r) == check_step(*old(self), answer_view(*answer)),
    {
        let queues = Err(DeviceError::Unsuitable(SuitabilityError("The queues on your device are not supported")));
        match (self.stage, answer) {
            (CheckStage::Families, DeviceAnswer::QueueFamilies(flags)) => {
                self.stage = CheckStage::Presenting;
                self.has_graphics = flags_have_graphics(flags);
                self.family_count = flags.len();
                self.next_family = 0;
                if flags.len() == 0 {
                    self.stage = CheckStage::Finished(queues);
                    CheckStep::Verdict(queues)
                } else {
                    CheckStep::Ask(DeviceQuery::SurfaceSupport(0))
                }
            },
            (CheckStage::Presenting, DeviceAnswer::SurfaceSupport(b)) => {
                if *b {
                    if self.has_graphics {
                        self.stage = CheckStage::Swapchain;
                        CheckStep::Ask(DeviceQuery::SwapchainSupport)
                    } else {
                        self.stage = CheckStage::Finished(queues);
                        CheckStep::Verdict(queues)
                    }
                } else if self.next_family < usize::MAX && self.next_family + 1 < self.family_count {
                    self.next_family = self.next_family + 1;
                    CheckStep::Ask(DeviceQuery::SurfaceSupport(self.next_family as u32))
                } else {
                    self.stage = CheckStage::Finished(queues);
                    CheckStep::Verdict(queues)
                }
            },
            (CheckStage::Swapchain, DeviceAnswer::SwapchainSupport(r)) => {
                let v = match r {
                    Err(code) => Some(Err(DeviceError::Vulkan(*code))),
                    Ok(support) => if support.formats.len() > 0 && support.present_modes.len() > 0 {
                        None
                    } else {
                        Some(Err(DeviceError::Unsuitable(SuitabilityError("Your swap chain does not work"))))
                    },
                };
                match v {
                    Some(v) => {
                        self.stage = CheckStage::Finished(v);
                        CheckStep::Verdict(v)
                    },
                    None => {
                        self.stage = CheckStage::Extensions;
                        CheckStep::Ask(DeviceQuery::Extensions)
                    },
                }
            },
            (CheckStage::Extensions, DeviceAnswer::Extensions(r)) => {
                let v = match r {
                    Err(code) => Some(Err(DeviceError::Vulkan(*code))),
                    Ok(names) => match check_physical_device_extensions(names.as_slice()) {
                        Ok(_) => None,
                        Err(e) => Some(Err(DeviceError::Unsuitable(e))),
                    },
                };
                match v {
                    Some(v) => {
                        self.stage = CheckStage::Finished(v);
                        CheckStep::Verdict(v)
                    },
                    None => {
                        self.stage = CheckStage::DeviceType;
                        CheckStep::Ask(DeviceQuery::DeviceType)
                    },
                }
            },
            (CheckStage::DeviceType, DeviceAnswer::DeviceType(t)) => {
                if *t == device_type_discrete_gpu() {
                    self.stage = CheckStage::GeometryShader;
                    CheckStep::Ask(DeviceQuery::GeometryShader)
                } else {
                    let v = Err(DeviceError::Unsuitable(SuitabilityError("We only support discrete GPUs")));
                    self.stage = CheckStage::Finished(v);
                    CheckStep::Verdict(v)
                }
            },
            (CheckStage::GeometryShader, DeviceAnswer::GeometryShader(g)) => {
                let v = if *g == vk_true() {
                    Ok(())
                } else {
                    Err(DeviceError::Unsuitable(SuitabilityError("You need to have geometry shader support")))
                };
                self.stage = CheckStage::Finished(v);
                CheckStep::Verdict(v)
            },
            _ => self.pending(),
        }
    }

    /// The query this check waits for, or its verdict.
    pub fn pending(&self) -> (r: CheckStep)
        ensures
            r == pending(*self),
    {
        match self.stage {
            CheckStage::Families => CheckStep::Ask(DeviceQuery::QueueFamilies),
            CheckStage::Presenting => CheckStep::Ask(DeviceQuery::SurfaceSupport(self.next_family as u32)),
            CheckStage::Swapchain => CheckStep::Ask(DeviceQuery::SwapchainSupport),
            CheckStage::Extensions => CheckStep::Ask(DeviceQuery::Extensions),
            CheckStage::DeviceType => CheckStep::Ask(DeviceQuery::DeviceType),
            CheckStage::GeometryShader => CheckStep::Ask(DeviceQuery::GeometryShader),
            CheckStage::Finished(v) => CheckStep::Verdict(v),
        }
    }
}

/// What a device described by `info` answers to a query.
pub open spec fn device_answer(info: DeviceInfo, q: DeviceQuery) -> AnswerView {
    match q {
        DeviceQuery::QueueFamilies => AnswerView::QueueFamilies(
            info.queue_families@.map_values(|f: QueueFamily| f.queue_flags),
        ),
        DeviceQuery::SurfaceSupport(i) => AnswerView::SurfaceSupport(
            i < info.queue_families@.len() && info.queue_families@[i as int].supports_present,
        ),
        DeviceQuery::SwapchainSupport => AnswerView::SwapchainSupport(
            match info.swapchain_support {
                Ok(s) => Ok(s.formats@.len() > 0 && s.present_modes@.len() > 0),
                Err(code) => Err(code),
            },
        ),
        DeviceQuery::Extensions => AnswerView::Extensions(
            match info.extensions {
                Ok(names) => Ok(names_contain_all(name_views(names@), required_device_extensions())),
                Err(code) => Err(code),
            },
        ),
        DeviceQuery::DeviceType => AnswerView::DeviceType(info.device_type),
        DeviceQuery::GeometryShader => AnswerView::GeometryShader(info.geometry_shader),
    }
}

/// The verdict of a check run against a device described by `info`, from
/// state `s` and step `step`, within `fuel` answers.
pub open spec fn run_check(info: DeviceInfo, s: DeviceCheck, step: CheckStep, fuel: nat) -> Option<
    Result<(), DeviceError>,
>
    decreases fuel,
{
    match step {
        CheckStep::Verdict(v) => Some(v),
        CheckStep::Ask(q) => if fuel == 0 {
            None
        } else {
            let (t, next) = check_step(s, device_answer(info, q));
            run_check(info, t, next, (fuel - 1) as nat)
        },
    }
}

/// From the swapchain stage, with queue families found, the check ends in
/// the device's verdict.
proof fn lemma_check_tail(info: DeviceInfo, s: DeviceCheck, fuel: nat)
    requires
        matches!(s.stage, CheckStage::Swapchain),
        queue_family_indices(info.queue_families@) is Some,
        fuel >= 4,
    ensures
        run_check(info, s, CheckStep::Ask(DeviceQuery::SwapchainSupport), fuel) == Some(
            device_verdict(info),
        ),
{
    reveal_with_fuel(run_check, 5);
}

/// Some family's flags hold `GRAPHICS` exactly when some family supports
/// graphics.
proof fn lemma_any_graphics(families: Seq<QueueFamily>)
    ensures
        any_graphics(families.map_values(|f: QueueFamily| f.queue_flags)) <==> first_index(
            families,
            graphics_family(),
        ) is Some,
{
    let flags = families.map_values(|f: QueueFamily| f.queue_flags);
    lemma_first_index_none(families, graphics_family());
    if any_graphics(flags) {
        let i = choose|i: int|
            0 <= i < flags.len() && flags[i] & QUEUE_GRAPHICS_BIT == QUEUE_GRAPHICS_BIT;
        assert(graphics_family()(families[i]));
    } else {
        assert forall|j: int| 0 <= j < families.len() implies !graphics_family()(
            #[trigger] families[j],
        ) by {
            assert(flags[j] == families[j].queue_flags);
        }
    }
}

/// While surface support is asked family by family, the check ends in the
/// device's verdict.
proof fn lemma_check_presenting(info: DeviceInfo, s: DeviceCheck, fuel: nat)
    requires
        matches!(s.stage, CheckStage::Presenting),
        info.queue_families@.len() <= u32::MAX,
        s.family_count == info.queue_families@.len(),
        s.next_family < s.family_count,
        s.has_graphics == (first_index(info.queue_families@, graphics_family()) is Some),
        forall|j: int| 0 <= j < s.next_family ==> !(#[trigger] info.queue_families@[j]).supports_present,
        fuel >= s.family_count - s.next_family + 4,
    ensures
        run_check(info, s, CheckStep::Ask(DeviceQuery::SurfaceSupport(s.next_family as u32)), fuel)
            == Some(device_verdict(info)),
    decreases s.family_count - s.next_family,
{
    let fams = info.queue_families@;
    let i = s.next_family as int;
    assert((s.next_family as u32) as int == i);
    let (t, next) = check_step(s, device_answer(info, DeviceQuery::SurfaceSupport(s.next_family as u32)));
    assert(run_check(info, s, CheckStep::Ask(DeviceQuery::SurfaceSupport(s.next_family as u32)), fuel)
        == run_check(info, t, next, (fuel - 1) as nat));
    lemma_first_index_none(fams, present_family());
    lemma_first_index_none(fams, graphics_family());
    if fams[i].supports_present {
        assert forall|j: int| 0 <= j < i implies !present_family()(#[trigger] fams[j]) by {}
        assert(is_first(fams, i, present_family()));
        lemma_first_index_is(fams, i, present_family());
        if s.has_graphics {
            lemma_check_tail(info, t, (fuel - 1) as nat);
        }
    } else if s.next_family + 1 < s.family_count {
        assert forall|j: int| 0 <= j < t.next_family implies !(
        #[trigger] fams[j]).supports_present by {
            if j < i {
            } else {
                assert(j == i);
            }
        }
        lemma_check_presenting(info, t, (fuel - 1) as nat);
    } else {
        assert forall|j: int| 0 <= j < fams.len() implies !present_family()(#[trigger] fams[j]) by {
            if j < i {
            } else {
                assert(j == i);
            }
        }
    }
}

/// Run query by query against a device, the check asks at most one query
/// per queue family and five more, and ends in the verdict that
/// `device_verdict` gives on everything the device reports.
pub proof fn law_check_query_by_query(info: DeviceInfo)
    requires
        info.queue_families@.len() <= u32::MAX,
    ensures
        run_check(info, check_start(), pending(check_start()), info.queue_families@.len() + 5)
            == Some(device_verdict(info)),
{
    let fams = info.queue_families@;
    let fuel = (fams.len() + 5) as nat;
    let (t, next) = check_step(check_start(), device_answer(info, DeviceQuery::QueueFamilies));
    assert(run_check(info, check_start(), pending(check_start()), fuel) == run_check(
        info,
        t,
        next,
        (fuel - 1) as nat,
    ));
    let flags = fams.map_values(|f: QueueFamily| f.queue_flags);
    assert(device_answer(info, DeviceQuery::QueueFamilies) == AnswerView::QueueFamilies(flags));
    lemma_any_graphics(fams);
    if fams.len() == 0 {
        lemma_first_index_none(fams, present_family());
    } else {
        assert(t.family_count == fams.len());
        lemma_check_presenting(info, t, (fuel - 1) as nat);
    }
}

/// The search for a physical device: the device checked now, among how
/// many.
#[derive(Clone, Copy, Debug, PartialEq, Eq, Structural)]
pub struct DeviceSearch {
    pub next: usize,
    pub count: usize,
}

/// What the search does next.
#[derive(Clone, Copy, Debug, PartialEq, Eq, Structural)]
pub enum SearchStep {
    /// Check the device with this index.
    Check(usize),
    /// The device with this index is chosen.
    Chosen(usize),
    /// No device is suitable.
    NoneSuitable,
}

/// The search's first state and step.
pub open spec fn search_start(count: usize) -> (DeviceSearch, SearchStep) {
    (DeviceSearch { next: 0, count }, if count == 0 {
        SearchStep::NoneSuitable
    } else {
        SearchStep::Check(0)
    })
}

/// One step of the search, given whether the device being checked is
/// suitable: the first suitable device is chosen; after the last one
/// nothing is.
pub open spec fn search_step(s: DeviceSearch, suitable: bool) -> (DeviceSearch, SearchStep) {
    if s.next >= s.count {
        (s, SearchStep::NoneSuitable)
    } else if suitable {
        (s, SearchStep::Chosen(s.next))
    } else if s.next + 1 < s.count {
        (DeviceSearch { next: (s.next + 1) as usize, ..s }, SearchStep::Check((s.next + 1) as usize))
    } else {
        (s, SearchStep::NoneSuitable)
    }
}

impl DeviceSearch {
    /// A search among `count` devices, checking the first one first.
    pub fn start(count: usize) -> (r: (DeviceSearch, SearchStep))
        ensures
            r == search_start(count),
    {
        let s = DeviceSearch { next: 0, count };
        if count == 0 {
            (s, SearchStep::NoneSuitable)
        } else {
            (s, SearchStep::Check(0))
        }
    }

    /// Records whether the device being checked is suitable.
    pub fn record(&mut self, suitable: bool) -> (r: SearchStep)
        ensures
            (*final(self), r) == search_step(*old(self), suitable),
    {
        if self.next >= self.count {
            SearchStep::NoneSuitable
        } else if suitable {
            SearchStep::Chosen(self.next)
        } else if self.next + 1 < self.count {
            self.next = self.next + 1;
            SearchStep::Check(self.next)
        } else {
            SearchStep::NoneSuitable
        }
    }
}

/// The outcome of a search among `devices`, each device's suitability being
/// its verdict, from state `s` and step `step`, within `fuel` checks.
pub open spec fn run_search(
    devices: Seq<DeviceInfo>,
    s: DeviceSearch,
    step: SearchStep,
    fuel: nat,
) -> Option<SearchStep>
    decreases fuel,
{
    match step {
        SearchStep::Check(i) => if fuel == 0 {
            None
        } else {
            let (t, next) = search_step(s, 0 <= i < devices.len() && device_verdict(devices[i as int]) is Ok);
            run_search(devices, t, next, (fuel - 1) as nat)
        },
        _ => Some(step),
    }
}

/// While devices are checked in turn, the search ends at the first suitable
/// one, or at none.
proof fn lemma_search_from(devices: Seq<DeviceInfo>, s: DeviceSearch, fuel: nat)
    requires
        s.count == devices.len(),
        s.next < s.count,
        forall|j: int| 0 <= j < s.next ==> !suitable_device()(#[trigger] devices[j]),
        fuel >= s.count - s.next,
    ensures
        run_search(devices, s, SearchStep::Check(s.next), fuel) == match first_index(
            devices,
            suitable_device(),
        ) {
            Some(i) => Some(SearchStep::Chosen(i as usize)),
            None => Some(SearchStep::NoneSuitable),
        },
    decreases s.count - s.next,
{
    let i = s.next as int;
    let ok = device_verdict(devices[i]) is Ok;
    assert(suitable_device()(devices[i]) == ok);
    let (t0, next0) = search_step(s, 0 <= i < devices.len() && ok);
    assert(run_search(devices, s, SearchStep::Check(s.next), fuel) == run_search(
        devices,
        t0,
        next0,
        (fuel - 1) as nat,
    ));
    lemma_first_index_none(devices, suitable_device());
    if suitable_device()(devices[i]) {
        assert(is_first(devices, i, suitable_device()));
        lemma_first_index_is(devices, i, suitable_device());
    } else if s.next + 1 < s.count {
        let t = DeviceSearch { next: (s.next + 1) as usize, ..s };
        assert forall|j: int| 0 <= j < t.next implies !suitable_device()(#[trigger] devices[j]) by {
            if j < i {
            } else {
                assert(j == i);
            }
        }
        lemma_search_from(devices, t, (fuel - 1) as nat);
    } else {
        assert forall|j: int| 0 <= j < devices.len() implies !suitable_device()(
            #[trigger] devices[j],
        ) by {
            if j < i {
            } else {
                assert(j == i);
            }
        }
    }
}

/// Checking devices in turn, the search asks at most one check per device
/// and chooses the first suitable device, or none when no device is
/// suitable: the choice `pick_physical_device` makes on all of them.
pub proof fn law_search_in_turn(devices: Seq<DeviceInfo>)
    requires
        devices.len() <= usize::MAX,
    ensures
        run_search(
            devices,
            search_start(devices.len() as usize).0,
            search_start(devices.len() as usize).1,
            devices.len(),
        ) == match first_index(devices, suitable_device()) {
            Some(i) => Some(SearchStep::Chosen(i as usize)),
            None => Some(SearchStep::NoneSuitable),
        },
{
    lemma_first_index_none(devices, suitable_device());
    if devices.len() > 0 {
        lemma_search_from(devices, search_start(devices.len() as usize).0, devices.len());
    }
}

/// Predicate on a family's flag bits: they hold `GRAPHICS`.
pub open spec fn graphics_flags() -> spec_fn(u32) -> bool {
    |bits: u32| bits & QUEUE_GRAPHICS_BIT == QUEUE_GRAPHICS_BIT
}

/// Where a queue-family lookup stands.
#[derive(Clone, Copy, Debug)]
pub enum LookupStage {
    /// Waiting for the queue families.
    Families,
    /// Waiting for the surface support of family `next_family`.
    Presenting,
    /// The lookup's outcome is given.
    Finished(Result<QueueFamilyIndices, SuitabilityError>),
}

/// The state of a lookup of the graphics and the presenting queue family.
#[derive(Clone, Copy, Debug)]
pub struct QueueLookup {
    pub stage: LookupStage,
    /// The first family that supports graphics, if any.
    pub graphics: Option<u32>,
    /// How many queue families the device has.
    pub family_count: usize,
    /// The family whose surface support was asked last.
    pub next_family: usize,
}

/// What a lookup step gives: the next query, or the outcome.
#[derive(Clone, Copy, Debug)]
pub enum LookupStep {
    Ask(DeviceQuery),
    Found(Result<QueueFamilyIndices, SuitabilityError>),
}

/// The lookup's outcome when a family is missing.
pub open spec fn lookup_failed() -> Result<QueueFamilyIndices, SuitabilityError> {
    Err(SuitabilityError(queues_unsupported()))
}

/// The query a lookup at this state waits for, or its outcome.
pub open spec fn lookup_pending(s: QueueLookup) -> LookupStep {
    match s.stage {
        LookupStage::Families => LookupStep::Ask(DeviceQuery::QueueFamilies),
        LookupStage::Presenting => LookupStep::Ask(DeviceQuery::SurfaceSupport(s.next_family as u32)),
        LookupStage::Finished(r) => LookupStep::Found(r),
    }
}

/// A lookup that has given its outcome.
pub open spec fn lookup_finish(s: QueueLookup, r: Result<QueueFamilyIndices, SuitabilityError>) -> (
    QueueLookup,
    LookupStep,
) {
    (QueueLookup { stage: LookupStage::Finished(r), ..s }, LookupStep::Found(r))
}

/// The lookup's first state.
pub open spec fn lookup_start() -> QueueLookup {
    QueueLookup { stage: LookupStage::Families, graphics: None, family_count: 0, next_family: 0 }
}

/// One step of the lookup. The families' flags are read once and give the
/// first graphics family; surface support is then asked family by family,
/// in index order, until one presents or none is left. An answer that does
/// not answer the pending query leaves the state as it is.
pub open spec fn lookup_step(s: QueueLookup, a: AnswerView) -> (QueueLookup, LookupStep) {
    match (s.stage, a) {
        (LookupStage::Families, AnswerView::QueueFamilies(flags)) => {
            let t = QueueLookup {
                stage: LookupStage::Presenting,
                graphics: match first_index(flags, graphics_flags()) {
                    Some(g) => Some(g as u32),
                    None => None,
                },
                family_count: flags.len() as usize,
                next_family: 0,
            };
            if flags.len() == 0 {
                lookup_finish(t, lookup_failed())
            } else {
                (t, lookup_pending(t))
            }
        },
        (LookupStage::Presenting, AnswerView::SurfaceSupport(b)) => {
            if b {
                match s.graphics {
                    Some(g) => lookup_finish(
                        s,
                        Ok(QueueFamilyIndices { graphics: g, present: s.next_family as u32 }),
                    ),
                    None => lookup_finish(s, lookup_failed()),
                }
            } else if s.next_family + 1 < s.family_count {
                let t = QueueLookup { next_family: (s.next_family + 1) as usize, ..s };
                (t, lookup_pending(t))
            } else {
                lookup_finish(s, lookup_failed())
            }
        },
        _ => (s, lookup_pending(s)),
    }
}

/// The first family whose flags hold `GRAPHICS`, by a scan.
fn first_graphics_flags(flags: &Vec<u32>) -> (r: Option<usize>)
    ensures
        match r {
            Some(i) => first_index(flags@, graphics_flags()) == Some(i as int),
            None => first_index(flags@, graphics_flags()) is None,
        },
{
    let mut i: usize = 0;
    while i < flags.len()
        invariant
            0 <= i <= flags@.len(),
            forall|j: int| 0 <= j < i ==> !graphics_flags()(#[trigger] flags@[j]),
        decreases flags@.len() - i,
    {
        if queue_flags_have_graphics(flags[i]) {
            proof {
                assert(is_first(flags@, i as int, graphics_flags()));
                lemma_first_index_is(flags@, i as int, graphics_flags());
            }
            return Some(i);
        }
        i += 1;
    }
    proof {
        lemma_first_index_none(flags@, graphics_flags());
    }
    None
}

impl QueueLookup {
    /// A lookup that first asks for the queue families.
    pub fn start() -> (r: (QueueLookup, LookupStep))
        ensures
            r.0 == lookup_start(),
            r.1 == lookup_pending(lookup_start()),
    {
        let s = QueueLookup {
            stage: LookupStage::Families,
            graphics: None,
            family_count: 0,
            next_family: 0,
        };
        (s, LookupStep::Ask(DeviceQuery::QueueFamilies))
    }

    /// Takes the answer to the pending query; gives the next query or the
    /// outcome.
    pub fn step(&mut self, answer: &DeviceAnswer) -> (r: LookupStep)
        ensures
            (*final(self), r) == lookup_step(*old(self), answer_view(*answer)),
    {
        let failed = Err(SuitabilityError("The queues on your device are not supported"));
        match (self.stage, answer) {
            (LookupStage::Families, DeviceAnswer::QueueFamilies(flags)) => {
                self.stage = LookupStage::Presenting;
                self.graphics = match first_graphics_flags(flags) {
                    Some(g) => Some(g as u32),
                    None => None,
                };
                self.family_count = flags.len();
                self.next_family = 0;
                if flags.len() == 0 {
                    self.stage = LookupStage::Finished(failed);
                    LookupStep::Found(failed)
                } else {
                    LookupStep::Ask(DeviceQuery::SurfaceSupport(0))
                }
            },
            (LookupStage::Presenting, DeviceAnswer::SurfaceSupport(b)) => {
                if *b {
                    let r = match self.graphics {
                        Some(g) => Ok(
                            QueueFamilyIndices { graphics: g, present: self.next_family as u32 },
                        ),
                        None => failed,
                    };
                    self.stage = LookupStage::Finished(r);
                    LookupStep::Found(r)
                } else if self.next_family < usize::MAX && self.next_family + 1 < self.family_count {
                    self.next_family = self.next_family + 1;
                    LookupStep::Ask(DeviceQuery::SurfaceSupport(self.next_family as u32))
                } else {
                    self.stage = LookupStage::Finished(failed);
                    LookupStep::Found(failed)
                }
            },
            _ => self.pending(),
        }
    }

    /// The query this lookup waits for, or its outcome.
    pub fn pending(&self) -> (r: LookupStep)
        ensures
            r == lookup_pending(*self),
    {
        match self.stage {
            LookupStage::Families => LookupStep::Ask(DeviceQuery::QueueFamilies),
            LookupStage::Presenting => LookupStep::Ask(
                DeviceQuery::SurfaceSupport(self.next_family as u32),
            ),
            LookupStage::Finished(r) => LookupStep::Found(r),
        }
    }
}

/// What a device with these queue families answers to a lookup's query.
pub open spec fn family_answer(families: Seq<QueueFamily>, q: DeviceQuery) -> AnswerView {
    match q {
        DeviceQuery::QueueFamilies => AnswerView::QueueFamilies(
            families.map_values(|f: QueueFamily| f.queue_flags),
        ),
        DeviceQuery::SurfaceSupport(i) => AnswerView::SurfaceSupport(
            i < families.len() && families[i as int].supports_present,
        ),
        _ => AnswerView::DeviceType(0),
    }
}

/// The outcome of a lookup run against a device with these queue families,
/// from state `s` and step `step`, within `fuel` answers.
pub open spec fn run_lookup(
    families: Seq<QueueFamily>,
    s: QueueLookup,
    step: LookupStep,
    fuel: nat,
) -> Option<Result<QueueFamilyIndices, SuitabilityError>>
    decreases fuel,
{
    match step {
        LookupStep::Found(r) => Some(r),
        LookupStep::Ask(q) => if fuel == 0 {
            None
        } else {
            let (t, next) = lookup_step(s, family_answer(families, q));
            run_lookup(families, t, next, (fuel - 1) as nat)
        },
    }
}

/// What `QueueFamilyIndices::get` gives for these families.
pub open spec fn indices_outcome(families: Seq<QueueFamily>) -> Result<
    QueueFamilyIndices,
    SuitabilityError,
> {
    match queue_family_indices(families) {
        Some(q) => Ok(q),
        None => lookup_failed(),
    }
}

/// The first graphics family found on the flags is the first graphics
/// family.
proof fn lemma_graphics_through_flags(families: Seq<QueueFamily>)
    ensures
        first_index(families.map_values(|f: QueueFamily| f.queue_flags), graphics_flags())
            == first_index(families, graphics_family()),
{
    let flags = families.map_values(|f: QueueFamily| f.queue_flags);
    assert forall|j: int| 0 <= j < families.len() implies graphics_flags()(#[trigger] flags[j])
        == graphics_family()(families[j]) by {}
    lemma_first_index_none(families, graphics_family());
    lemma_first_index_none(flags, graphics_flags());
    if first_index(families, graphics_family()) is Some {
        let g = first_index(families, graphics_family())->0;
        crate::search::lemma_first_index_found(families, graphics_family());
        assert forall|j: int| 0 <= j < g implies !graphics_flags()(#[trigger] flags[j]) by {
            assert(!graphics_family()(families[j]));
        }
        assert(graphics_flags()(flags[g]));
        assert(is_first(flags, g, graphics_flags()));
        lemma_first_index_is(flags, g, graphics_flags());
    } else {
        assert forall|j: int| 0 <= j < flags.len() implies !graphics_flags()(#[trigger] flags[j]) by {
            assert(!graphics_family()(families[j]));
        }
    }
}

/// While surface support is asked family by family, the lookup ends in
/// what `QueueFamilyIndices::get` gives.
proof fn lemma_lookup_presenting(families: Seq<QueueFamily>, s: QueueLookup, fuel: nat)
    requires
        matches!(s.stage, LookupStage::Presenting),
        families.len() <= u32::MAX,
        s.family_count == families.len(),
        s.next_family < s.family_count,
        s.graphics == match first_index(families, graphics_family()) {
            Some(g) => Some(g as u32),
            None => None::<u32>,
        },
        forall|j: int| 0 <= j < s.next_family ==> !(#[trigger] families[j]).supports_present,
        fuel >= s.family_count - s.next_family,
    ensures
        run_lookup(families, s, LookupStep::Ask(DeviceQuery::SurfaceSupport(s.next_family as u32)), fuel)
            == Some(indices_outcome(families)),
    decreases s.family_count - s.next_family,
{
    let i = s.next_family as int;
    assert((s.next_family as u32) as int == i);
    let (t, next) = lookup_step(s, family_answer(families, DeviceQuery::SurfaceSupport(s.next_family as u32)));
    assert(run_lookup(families, s, LookupStep::Ask(DeviceQuery::SurfaceSupport(s.next_family as u32)), fuel)
        == run_lookup(families, t, next, (fuel - 1) as nat));
    lemma_first_index_none(families, present_family());
    if families[i].supports_present {
        assert forall|j: int| 0 <= j < i implies !present_family()(#[trigger] families[j]) by {}
        assert(is_first(families, i, present_family()));
        lemma_first_index_is(families, i, present_family());
    } else if s.next_family + 1 < s.family_count {
        assert forall|j: int| 0 <= j < t.next_family implies !(
        #[trigger] families[j]).supports_present by {
            if j < i {
            } else {
                assert(j == i);
            }
        }
        lemma_lookup_presenting(families, t, (fuel - 1) as nat);
    } else {
        assert forall|j: int| 0 <= j < families.len() implies !present_family()(
            #[trigger] families[j],
        ) by {
            if j < i {
            } else {
                assert(j == i);
            }
        }
    }
}

/// Run query by query against a device, the lookup reads the queue
/// families once, then asks surface support family by family in index
/// order, at most once per family and never past the last one, and ends in
/// what `QueueFamilyIndices::get` gives on all the families.
pub proof fn law_lookup_query_by_query(families: Seq<QueueFamily>)
    requires
        families.len() <= u32::MAX,
    ensures
        run_lookup(families, lookup_start(), lookup_pending(lookup_start()), families.len() + 1)
            == Some(indices_outcome(families)),
{
    let fuel = (families.len() + 1) as nat;
    let (t, next) = lookup_step(lookup_start(), family_answer(families, DeviceQuery::QueueFamilies));
    assert(run_lookup(families, lookup_start(), lookup_pending(lookup_start()), fuel) == run_lookup(
        families,
        t,
        next,
        (fuel - 1) as nat,
    ));
    lemma_graphics_through_flags(families);
    if families.len() == 0 {
        lemma_first_index_none(families, present_family());
    } else {
        lemma_lookup_presenting(families, t, (fuel - 1) as nat);
    }
}

} // verus!
