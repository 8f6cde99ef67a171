//! The bridge between serial adapters and the kernel: which adapters there are and which are bridged.

use vstd::prelude::*;

use crate::error::str_eq;

verus! {

/// The call was interrupted by a signal.
pub const EINTR: i32 = 4;

/// There was an error on the file.
pub const POLLERR: u16 = 8;

/// The protocol that a serial adapter speaks.
#[derive(Debug, PartialEq, Eq, Structural, Copy, Clone, Hash)]
pub enum SerioType {
    Pulse8,
    RainShadow,
}

impl SerioType {
    /// The number by which the kernel knows the protocol.
    pub open spec fn spec_code(self) -> u8 {
        match self {
            SerioType::Pulse8 => 0x40,
            SerioType::RainShadow => 0x41,
        }
    }

    /// The number by which the kernel knows the protocol.
    pub fn code(self) -> (r: u8)
        ensures
            r == self.spec_code(),
    {
        match self {
            SerioType::Pulse8 => 0x40,
            SerioType::RainShadow => 0x41,
        }
    }
}

/// The protocol of an adapter by its bus, its vendor and its model, where all are known.
pub open spec fn protocol(
    bus: Option<Seq<char>>,
    id: Option<Seq<char>>,
    model: Option<Seq<char>>,
) -> Option<SerioType> {
    match (bus, id, model) {
        (Some(bus), Some(id), Some(model)) => if bus != "usb"@ {
            None
        } else if id == "2548"@ && (model == "1001"@ || model == "1002"@) {
            Some(SerioType::Pulse8)
        } else if id == "04d8"@ && model == "ff59"@ {
            Some(SerioType::RainShadow)
        } else {
            None
        },
        _ => None,
    }
}

/// The characters of a string that may be missing.
pub open spec fn chars_of(s: Option<&str>) -> Option<Seq<char>> {
    match s {
        Some(s) => Some(s@),
        None => None,
    }
}

/// The adapters that are bridged, by the paths of their devices.
pub struct CecTtyPoller {
    nodes: Vec<String>,
}

/// What to do once the wait for a change among the devices has ended.
#[derive(Debug, PartialEq, Eq, Structural, Copy, Clone)]
pub enum PollAction {
    /// Wait again.
    Again,
    /// Take note of what has changed.
    Handle,
    /// Stop.
    Stop,
    /// Stop, with the number of an error.
    Fail(i32),
}

/// What to do once an adapter has been read from.
#[derive(Debug, PartialEq, Eq, Structural, Copy, Clone)]
pub enum TtyAction {
    /// Read again.
    Read,
    /// Stop.
    Stop,
    /// Stop, with the error that came up.
    Fail,
}

/// The result of a read from an adapter.
#[derive(Debug, PartialEq, Eq, Structural, Copy, Clone)]
pub enum TtyRead {
    Done,
    Interrupted,
    Failed,
}

/// What to do once the wait for a change among the devices has ended, by its result and what was
/// seen.
pub open spec fn action_after(result: Result<i32, i32>, revents: Option<u16>) -> PollAction {
    match result {
        Err(e) => if e == EINTR {
            PollAction::Again
        } else {
            PollAction::Fail(e)
        },
        Ok(n) => if n < 1 {
            PollAction::Again
        } else {
            match revents {
                None => PollAction::Again,
                Some(seen) => if (seen / POLLERR) % 2 == 1 {
                    PollAction::Stop
                } else {
                    PollAction::Handle
                },
            }
        },
    }
}

/// What to do once an adapter has been read from, by how that went and whether the bridge is to be
/// taken down.
pub open spec fn tty_action(read: TtyRead, is_cancelled: bool) -> TtyAction {
    if read is Failed {
        TtyAction::Fail
    } else if is_cancelled {
        TtyAction::Stop
    } else {
        TtyAction::Read
    }
}

/// What is bridged once a device has come up, and the protocol by which it is to be bridged, if it
/// is to be.
pub open spec fn added(
    bridged: Set<Seq<char>>,
    ty: Option<SerioType>,
    node: Option<Seq<char>>,
) -> (Set<Seq<char>>, Option<SerioType>) {
    match (ty, node) {
        (Some(ty), Some(node)) => (
            bridged.insert(node),
            if bridged.contains(node) {
                None
            } else {
                Some(ty)
            },
        ),
        _ => (bridged, None),
    }
}

/// What is bridged once a device has gone, and whether its bridge is to be taken down.
pub open spec fn removed(bridged: Set<Seq<char>>, node: Option<Seq<char>>) -> (
    Set<Seq<char>>,
    bool,
) {
    match node {
        Some(node) => (bridged.remove(node), bridged.contains(node)),
        None => (bridged, false),
    }
}

impl CecTtyPoller {
    /// The paths of the devices that are bridged.
    pub closed spec fn bridged(&self) -> Set<Seq<char>> {
        Set::new(|path: Seq<char>| exists|i: int| 0 <= i < self.nodes@.len() && #[trigger] self.nodes@[i]@ == path)
    }

    /// No device is bridged twice.
    #[verifier::type_invariant]
    spec fn once_each(self) -> bool {
        forall|i: int, j: int|
            0 <= i < j < self.nodes@.len() ==> #[trigger] self.nodes@[i]@ != #[trigger] self.nodes@[j]@
    }

    /// No devices are bridged.
    pub fn new() -> (r: CecTtyPoller)
        ensures
            r.bridged() == Set::<Seq<char>>::empty(),
    {
        let r = CecTtyPoller { nodes: Vec::new() };
        assert(r.bridged() =~= Set::empty());
        r
    }

    /// The protocol of an adapter by its bus, its vendor and its model, where all are known.
    pub fn dev_type(bus: Option<&str>, id: Option<&str>, model: Option<&str>) -> (r: Option<
        SerioType,
    >)
        ensures
            r == protocol(chars_of(bus), chars_of(id), chars_of(model)),
    {
        match (bus, id, model) {
            (Some(bus), Some(id), Some(model)) => if !str_eq(bus, "usb") {
                None
            } else if str_eq(id, "2548") && (str_eq(model, "1001") || str_eq(model, "1002")) {
                Some(SerioType::Pulse8)
            } else if str_eq(id, "04d8") && str_eq(model, "ff59") {
                Some(SerioType::RainShadow)
            } else {
                None
            },
            _ => None,
        }
    }

    fn position(&self, node: &str) -> (r: Option<usize>)
        ensures
            match r {
                Some(i) => i < self.nodes@.len() && self.nodes@[i as int]@ == node@,
                None => !self.bridged().contains(node@),
            },
    {
        let mut i: usize = 0;
        while i < self.nodes.len()
            invariant
                i <= self.nodes@.len(),
                forall|k: int| 0 <= k < i ==> #[trigger] self.nodes@[k]@ != node@,
            decreases self.nodes@.len() - i,
        {
            if str_eq(self.nodes[i].as_str(), node) {
                return Some(i);
            }
            i += 1;
        }
        None
    }

    /// A device has come up. An adapter that is not bridged yet is to be bridged by the protocol that
    /// is returned.
    pub fn add_dev(&mut self, ty: Option<SerioType>, node: Option<&str>) -> (r: Option<SerioType>)
        ensures
            (final(self).bridged(), r) == added(old(self).bridged(), ty, chars_of(node)),
    {
        proof {
            use_type_invariant(&*self);
        }
        match (ty, node) {
            (Some(ty), Some(node)) => {
                if let Some(i) = self.position(node) {
                    assert(self.nodes@[i as int]@ == node@);
                    assert(self.bridged() =~= old(self).bridged().insert(node@));
                    return None;
                }
                let mut nodes: Vec<String> = Vec::new();
                std::mem::swap(&mut nodes, &mut self.nodes);
                let ghost was = nodes@;
                assert forall|i: int| 0 <= i < was.len() implies (#[trigger] was[i])@ != node@ by {
                    assert(old(self).bridged().contains(was[i]@));
                }
                nodes.push(node.to_owned());
                self.nodes = nodes;
                proof {
                    assert forall|path: Seq<char>|
                        self.bridged().contains(path) == old(self).bridged().insert(node@).contains(
                            path,
                        ) by {
                        if self.bridged().contains(path) {
                            let i = choose|i: int|
                                0 <= i < self.nodes@.len() && #[trigger] self.nodes@[i]@ == path;
                            if i < was.len() {
                                assert(was[i]@ == path);
                            }
                        }
                        if old(self).bridged().contains(path) {
                            let i = choose|i: int|
                                0 <= i < was.len() && #[trigger] old(self).nodes@[i]@ == path;
                            assert(self.nodes@[i]@ == path);
                        }
                        assert(self.nodes@[was.len() as int]@ == node@);
                    }
                    assert(self.bridged() =~= old(self).bridged().insert(node@));
                }
                Some(ty)
            },
            _ => None,
        }
    }

    /// A device has gone. Whether its bridge is to be taken down.
    pub fn remove_dev(&mut self, node: Option<&str>) -> (r: bool)
        ensures
            (final(self).bridged(), r) == removed(old(self).bridged(), chars_of(node)),
    {
        proof {
            use_type_invariant(&*self);
        }
        let node = match node {
            Some(node) => node,
            None => return false,
        };
        let at: usize = match self.position(node) {
            Some(i) => i,
            None => {
                assert(self.bridged() =~= old(self).bridged().remove(node@));
                return false;
            },
        };
        let mut nodes: Vec<String> = Vec::new();
        std::mem::swap(&mut nodes, &mut self.nodes);
        let ghost was = nodes@;
        nodes.remove(at);
        proof {
            assert forall|i: int, j: int| 0 <= i < j < nodes@.len() implies #[trigger] nodes@[i]@
                != #[trigger] nodes@[j]@ by {
                let a = if i < at { i } else { i + 1 };
                let b = if j < at { j } else { j + 1 };
                assert(nodes@[i] == was[a] && nodes@[j] == was[b]);
                assert(was[a]@ != was[b]@);
            }
        }
        self.nodes = nodes;
        proof {
            assert forall|path: Seq<char>|
                self.bridged().contains(path) == old(self).bridged().remove(node@).contains(path) by {
                if self.bridged().contains(path) {
                    let i = choose|i: int|
                        0 <= i < self.nodes@.len() && #[trigger] self.nodes@[i]@ == path;
                    let a = if i < at { i } else { i + 1 };
                    assert(was[a]@ == path);
                    assert(was[at as int]@ == node@);
                    assert(path != node@);
                }
                if old(self).bridged().contains(path) && path != node@ {
                    let a = choose|a: int| 0 <= a < was.len() && #[trigger] old(self).nodes@[a]@ == path;
                    let i = if a < at { a } else { a - 1 };
                    assert(self.nodes@[i]@ == path);
                }
            }
            assert(self.bridged() =~= old(self).bridged().remove(node@));
            assert(was[at as int]@ == node@);
        }
        true
    }

    /// What to do once the wait for a change among the devices has ended, by its result and what was
    /// seen. An interruption ends no more than the wait.
    pub fn after_poll(result: Result<i32, i32>, revents: Option<u16>) -> (r: PollAction)
        ensures
            r == action_after(result, revents),
    {
        match result {
            Err(e) => if e == EINTR {
                PollAction::Again
            } else {
                PollAction::Fail(e)
            },
            Ok(n) => if n < 1 {
                PollAction::Again
            } else {
                match revents {
                    None => PollAction::Again,
                    Some(seen) => if (seen / POLLERR) % 2 == 1 {
                        PollAction::Stop
                    } else {
                        PollAction::Handle
                    },
                }
            },
        }
    }
}

/// What to do once an adapter has been read from, by how that went and whether the bridge is to be
/// taken down.
pub fn tty_thread(read: TtyRead, is_cancelled: bool) -> (r: TtyAction)
    ensures
        r == tty_action(read, is_cancelled),
{
    match read {
        TtyRead::Failed => TtyAction::Fail,
        _ => if is_cancelled {
            TtyAction::Stop
        } else {
            TtyAction::Read
        },
    }
}

/// The adapters that are known, by bus, vendor and model, with their protocols and the numbers of
/// those. No other adapter is known.
pub proof fn known_adapters(bus: Seq<char>, id: Seq<char>, model: Seq<char>)
    ensures
        protocol(Some("usb"@), Some("2548"@), Some("1001"@)) == Some(SerioType::Pulse8),
        protocol(Some("usb"@), Some("2548"@), Some("1002"@)) == Some(SerioType::Pulse8),
        protocol(Some("usb"@), Some("04d8"@), Some("ff59"@)) == Some(SerioType::RainShadow),
        protocol(Some(bus), Some(id), Some(model)) is Some ==> bus == "usb"@ && ((id == "2548"@ && (
        model == "1001"@ || model == "1002"@)) || (id == "04d8"@ && model == "ff59"@)),
        protocol(None, Some(id), Some(model)) is None,
        protocol(Some(bus), None, Some(model)) is None,
        protocol(Some(bus), Some(id), None) is None,
        SerioType::Pulse8.spec_code() == 0x40,
        SerioType::RainShadow.spec_code() == 0x41,
{
    reveal_strlit("2548");
    reveal_strlit("04d8");
    assert("2548"@[0] != "04d8"@[0]);
}

/// Changes among the devices are handled where the wait ended with something seen and no error. An
/// error on the file stops it, and one of the wait itself fails it, unless that was a signal.
pub proof fn waits_end_in_order(n: i32, e: i32, seen: u16)
    requires
        seen < 8,
    ensures
        action_after(Err(4), Some(seen)) == PollAction::Again,
        e != 4 ==> action_after(Err(e), Some(seen)) == PollAction::Fail(e),
        e != 4 ==> action_after(Err(e), None) == PollAction::Fail(e),
        n <= 0 ==> action_after(Ok(n), Some(seen)) == PollAction::Again,
        n > 0 ==> action_after(Ok(n), None) == PollAction::Again,
        n > 0 ==> action_after(Ok(n), Some(seen)) == PollAction::Handle,
        n > 0 ==> action_after(Ok(n), Some((seen + 8) as u16)) == PollAction::Stop,
{
}

/// An adapter is read from until its bridge is taken down or a read fails, which an interruption is
/// not.
pub proof fn adapters_are_read_from(is_cancelled: bool)
    ensures
        tty_action(TtyRead::Failed, is_cancelled) == TtyAction::Fail,
        tty_action(TtyRead::Done, true) == TtyAction::Stop,
        tty_action(TtyRead::Interrupted, true) == TtyAction::Stop,
        tty_action(TtyRead::Done, false) == TtyAction::Read,
        tty_action(TtyRead::Interrupted, false) == TtyAction::Read,
{
}

/// An adapter is bridged when it comes up, by its protocol and just once, until it goes. What is no
/// adapter is not, and others are not touched.
pub proof fn adapters_are_bridged_once(
    bridged: Set<Seq<char>>,
    ty: SerioType,
    node: Seq<char>,
    other: Seq<char>,
)
    requires
        !bridged.contains(node),
        other != node,
    ensures
        ({
            let (up, how) = added(bridged, Some(ty), Some(node));
            &&& how == Some(ty) && up.contains(node)
            &&& added(up, Some(ty), Some(node)) == (up, None::<SerioType>)
            &&& removed(up, Some(node)) == (bridged, true)
            &&& removed(bridged, Some(node)) == (bridged, false)
            &&& up.contains(other) == bridged.contains(other)
            &&& added(bridged, None, Some(node)) == (bridged, None::<SerioType>)
            &&& added(bridged, Some(ty), None) == (bridged, None::<SerioType>)
            &&& removed(bridged, None) == (bridged, false)
        }),
{
    let up = bridged.insert(node);
    assert(up.insert(node) =~= up);
    assert(up.remove(node) =~= bridged);
    assert(bridged.remove(node) =~= bridged);
}

} // verus!
