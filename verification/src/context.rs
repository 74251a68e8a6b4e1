//! Choosing the device and the queue family on which the demonstrations run.
//!
//! The caller enumerates the machine's devices and describes each by plain
//! values; the rules of the choice are decided here.

use vstd::prelude::*;
use vstd::string::StringExecFns;
use crate::text::{decimal, decimal_string};

verus! {

/// Share of the device's attention that the one queue asks for, in percent.
pub const QUEUE_PRIORITY_PERCENT: u32 = 50;

/// What the selection reads of one queue family.
#[derive(Clone, Copy, Debug, PartialEq, Eq, Structural)]
pub struct QueueFamilyInfo {
    /// Number of queues that belong to the family.
    pub queues_count: usize,
    /// Whether queues of the family can execute graphics operations.
    pub supports_graphics: bool,
}

/// What the selection reads of one physical device: its queue families, in
/// the order in which the device lists them.
#[derive(Debug)]
pub struct DeviceInfo {
    pub families: Vec<QueueFamilyInfo>,
}

/// Why no execution context can be set up.
#[derive(Clone, Copy, Debug, PartialEq, Eq, Structural)]
pub enum ContextError {
    /// The machine lists no device at all.
    NoDevice,
    /// The chosen device has no queue family that can execute graphics.
    NoGraphicsFamily,
}

/// The logical device to create: which physical device, which of its queue
/// families, and the priority of the single queue.
#[derive(Clone, Copy, Debug, PartialEq, Eq, Structural)]
pub struct ContextPlan {
    /// Position of the physical device in the enumeration.
    pub device: usize,
    /// Position of the queue family among the device's families.
    pub family: usize,
    /// Priority of the queue, in percent of the highest priority.
    pub priority_percent: u32,
}

/// Some family of `families` can execute graphics operations.
pub open spec fn has_graphics_family(families: Seq<QueueFamilyInfo>) -> bool {
    exists|i: int| 0 <= i < families.len() && (#[trigger] families[i]).supports_graphics
}

/// `i` is the position of the first family that can execute graphics
/// operations.
pub open spec fn is_first_graphics_family(families: Seq<QueueFamilyInfo>, i: int) -> bool {
    &&& 0 <= i < families.len()
    &&& families[i].supports_graphics
    &&& forall|j: int| 0 <= j < i ==> !(#[trigger] families[j]).supports_graphics
}

/// The position of the first family that can execute graphics operations,
/// where there is one.
pub open spec fn first_graphics_family(families: Seq<QueueFamilyInfo>) -> int {
    choose|i: int| is_first_graphics_family(families, i)
}

/// What `init` answers for a given enumeration.
pub open spec fn init_spec(devices: Seq<DeviceInfo>) -> Result<ContextPlan, ContextError> {
    if devices.len() == 0 {
        Err(ContextError::NoDevice)
    } else if !has_graphics_family(devices[0].families@) {
        Err(ContextError::NoGraphicsFamily)
    } else {
        Ok(
            ContextPlan {
                device: 0,
                family: first_graphics_family(devices[0].families@) as usize,
                priority_percent: QUEUE_PRIORITY_PERCENT,
            },
        )
    }
}

/// Position of the first queue family that can execute graphics operations,
/// if there is one.
pub fn find_graphics_family(families: &Vec<QueueFamilyInfo>) -> (found: Option<usize>)
    ensures
        match found {
            Some(i) => is_first_graphics_family(families@, i as int),
            None => !has_graphics_family(families@),
        },
{
    let mut i: usize = 0;
    while i < families.len()
        invariant
            i <= families.len(),
            forall|j: int| 0 <= j < i ==> !(#[trigger] families@[j]).supports_graphics,
        decreases families.len() - i,
    {
        if families[i].supports_graphics {
            return Some(i);
        }
        i = i + 1;
    }
    None
}

/// The first position at which graphics is supported is unique.
pub proof fn lemma_first_graphics_family_unique(families: Seq<QueueFamilyInfo>, a: int, b: int)
    requires
        is_first_graphics_family(families, a),
        is_first_graphics_family(families, b),
    ensures
        a == b,
{
    if a < b {
        assert(!families[a].supports_graphics);
    } else if b < a {
        assert(!families[b].supports_graphics);
    }
}

/// Plans the execution context from the enumerated devices: the first device
/// and, on it, the first queue family that can execute graphics operations,
/// with one queue at the fixed priority. There is no fallback to a later
/// device.
pub fn init(devices: &Vec<DeviceInfo>) -> (plan: Result<ContextPlan, ContextError>)
    ensures
        plan == init_spec(devices@),
        devices@.len() == 0 <==> plan == Err::<ContextPlan, ContextError>(ContextError::NoDevice),
        devices@.len() > 0 && !has_graphics_family(devices@[0].families@) <==> plan == Err::<
            ContextPlan,
            ContextError,
        >(ContextError::NoGraphicsFamily),
        plan matches Ok(p) ==> p.device == 0 && p.priority_percent == QUEUE_PRIORITY_PERCENT
            && is_first_graphics_family(devices@[0].families@, p.family as int),
{
    if devices.len() == 0 {
        return Err(ContextError::NoDevice);
    }
    match find_graphics_family(&devices[0].families) {
        None => Err(ContextError::NoGraphicsFamily),
        Some(family) => {
            proof {
                let chosen = first_graphics_family(devices@[0].families@);
                lemma_first_graphics_family_unique(devices@[0].families@, family as int, chosen);
            }
            Ok(ContextPlan { device: 0, family, priority_percent: QUEUE_PRIORITY_PERCENT })
        },
    }
}

/// What is said when the context cannot be set up for the reason `error`.
pub open spec fn message_spec(error: ContextError) -> Seq<char> {
    match error {
        ContextError::NoDevice => "no device available"@,
        ContextError::NoGraphicsFamily => "couldn't find a graphical queue family"@,
    }
}

/// The line that reports a queue family with `queues_count` queues.
pub open spec fn family_line_spec(queues_count: nat) -> Seq<char> {
    "Found a queue family with "@ + decimal(queues_count) + " queue(s)"@
}

impl ContextError {
    /// The diagnostic with which the program gives up on this error.
    pub fn message(&self) -> (text: &'static str)
        ensures
            text@ == message_spec(*self),
    {
        match self {
            ContextError::NoDevice => "no device available",
            ContextError::NoGraphicsFamily => "couldn't find a graphical queue family",
        }
    }
}

/// The line that reports one queue family of the chosen device.
pub fn family_line(family: &QueueFamilyInfo) -> (line: String)
    ensures
        line@ == family_line_spec(family.queues_count as nat),
{
    let mut line = String::from_str("Found a queue family with ");
    let count = decimal_string(family.queues_count);
    line.append(count.as_str());
    line.append(" queue(s)");
    line
}

/// The lines that report the queue families of the device that `init`
/// chooses, one for each family and in their order, whether or not any of
/// them can execute graphics. Without a device there is nothing to report.
pub fn family_report(devices: &Vec<DeviceInfo>) -> (lines: Vec<String>)
    ensures
        devices@.len() == 0 ==> lines@.len() == 0,
        devices@.len() > 0 ==> lines@.len() == devices@[0].families@.len(),
        forall|i: int|
            0 <= i < lines@.len() ==> (#[trigger] lines@[i])@ == family_line_spec(
                devices@[0].families@[i].queues_count as nat,
            ),
{
    let mut lines: Vec<String> = Vec::new();
    if devices.len() == 0 {
        return lines;
    }
    let families = &devices[0].families;
    let mut i: usize = 0;
    while i < families.len()
        invariant
            i <= families.len(),
            devices@.len() > 0,
            families == &devices@[0].families,
            lines@.len() == i,
            forall|j: int|
                0 <= j < i ==> (#[trigger] lines@[j])@ == family_line_spec(
                    families@[j].queues_count as nat,
                ),
        decreases families.len() - i,
    {
        lines.push(family_line(&families[i]));
        i = i + 1;
    }
    lines
}

} // verus!
