//! The configuration of the daemon.

use vstd::prelude::*;

use crate::address::{LogicalAddressType, PhysicalAddress, VendorId};
use crate::keys::{default_code, default_key, KEY_CNT, Key};
use crate::operand::UiCommand;
use crate::operand::ui::named;

verus! {

/// Which keys the buttons of a remote control stand for. No button occurs twice.
#[derive(Debug)]
pub struct Mappings {
    entries: Vec<(UiCommand, Key)>,
}

impl Mappings {
    /// The keys that buttons stand for.
    pub closed spec fn view(&self) -> Map<UiCommand, Key> {
        Map::new(
            |c: UiCommand| exists|i: int| 0 <= i < self.entries@.len() && self.entries@[i].0 == c,
            |c: UiCommand| self.entries@[place(self.entries@, c)].1,
        )
    }

    #[verifier::type_invariant]
    spec fn wf(&self) -> bool {
        distinct(self.entries@)
    }

    /// No mappings.
    pub fn new() -> (r: Mappings)
        ensures
            r@ == Map::<UiCommand, Key>::empty(),
            r.count() == 0,
    {
        let r = Mappings { entries: Vec::new() };
        assert(r@ =~= Map::empty());
        r
    }

    /// Whether there are no mappings.
    pub fn is_empty(&self) -> (r: bool)
        ensures
            r == (self@ == Map::<UiCommand, Key>::empty()),
    {
        proof {
            if self.entries@.len() > 0 {
                assert(self.entries@[0].0 == self.entries@[0].0);
                assert(self@.dom().contains(self.entries@[0].0));
            } else {
                assert(self@ =~= Map::empty());
            }
        }
        self.entries.len() == 0
    }

    /// How many mappings there are.
    pub closed spec fn count(&self) -> nat {
        self.entries@.len()
    }

    /// One of the mappings.
    pub closed spec fn entry(&self, i: int) -> (UiCommand, Key) {
        self.entries@[i]
    }

    /// Whether the mappings are just the entries, each button in one of them.
    pub open spec fn lists_all(&self) -> bool {
        &&& forall|c: UiCommand| #[trigger]
            self@.dom().contains(c) <==> exists|i: int|
                0 <= i < self.count() && (#[trigger] self.entry(i)).0 == c
        &&& forall|i: int|
            0 <= i < self.count() ==> self@[(#[trigger] self.entry(i)).0] == self.entry(i).1
        &&& forall|j: int, k: int|
            0 <= j < k < self.count() ==> (#[trigger] self.entry(j)).0 != (#[trigger] self.entry(
                k,
            )).0
    }

    /// How many mappings there are.
    pub fn len(&self) -> (n: usize)
        ensures
            n == self.count(),
            self.lists_all(),
    {
        proof {
            use_type_invariant(self);
            assert forall|c: UiCommand| #[trigger]
                self@.dom().contains(c) <==> exists|i: int|
                    0 <= i < self.count() && (#[trigger] self.entry(i)).0 == c by {
                if self@.dom().contains(c) {
                    let i = choose|i: int|
                        0 <= i < self.entries@.len() && self.entries@[i].0 == c;
                    assert(self.entry(i).0 == c);
                }
                if exists|i: int| 0 <= i < self.count() && (#[trigger] self.entry(i)).0 == c {
                    let i = choose|i: int|
                        0 <= i < self.count() && (#[trigger] self.entry(i)).0 == c;
                    assert(self.entries@[i].0 == c);
                }
            }
            assert forall|i: int| 0 <= i < self.count() implies self@[(
            #[trigger] self.entry(i)).0] == self.entry(i).1 by {
                at_place(self.entries@, i);
                assert(self.entries@[i].0 == self.entry(i).0);
                assert(self@.dom().contains(self.entry(i).0));
            }
        }
        self.entries.len()
    }

    /// One of the mappings.
    pub fn get_entry(&self, i: usize) -> (r: (UiCommand, Key))
        requires
            i < self.count(),
        ensures
            r == self.entry(i as int),
            self@.dom().contains(r.0),
            self@[r.0] == r.1,
    {
        proof {
            use_type_invariant(self);
            at_place(self.entries@, i as int);
        }
        self.entries[i]
    }

    fn find(&self, command: UiCommand) -> (r: Option<usize>)
        ensures
            match r {
                Some(i) => i < self.entries@.len() && self.entries@[i as int].0 == command
                    && self@.dom().contains(command) && self@[command]
                    == self.entries@[i as int].1,
                None => !self@.dom().contains(command),
            },
    {
        proof {
            use_type_invariant(self);
        }
        let mut i: usize = 0;
        while i < self.entries.len()
            invariant
                i <= self.entries@.len(),
                distinct(self.entries@),
                forall|k: int| 0 <= k < i ==> self.entries@[k].0 != command,
            decreases self.entries@.len() - i,
        {
            if self.entries[i].0 == command {
                proof {
                    at_place(self.entries@, i as int);
                }
                return Some(i);
            }
            i += 1;
        }
        None
    }

    /// The key that a button stands for.
    pub fn get(&self, command: UiCommand) -> (r: Option<Key>)
        ensures
            r == (if self@.dom().contains(command) {
                Some(self@[command])
            } else {
                None
            }),
    {
        match self.find(command) {
            Some(i) => Some(self.entries[i].1),
            None => None,
        }
    }

    /// Let a button stand for a key, whatever it stood for before.
    pub fn insert(&mut self, command: UiCommand, key: Key)
        ensures
            final(self)@ == old(self)@.insert(command, key),
    {
        proof {
            use_type_invariant(&*self);
        }
        let ghost was = self.entries@;
        let mut entries: Vec<(UiCommand, Key)> = Vec::new();
        let mut i: usize = 0;
        let mut replaced = false;
        while i < self.entries.len()
            invariant
                i <= self.entries@.len(),
                was == self.entries@,
                distinct(was),
                entries@.len() == i,
                forall|k: int| #![trigger entries@[k]]
                    0 <= k < i ==> entries@[k] == (if was[k].0 == command {
                        (command, key)
                    } else {
                        was[k]
                    }),
                replaced == exists|k: int| 0 <= k < i && was[k].0 == command,
            decreases self.entries@.len() - i,
        {
            if self.entries[i].0 == command {
                entries.push((command, key));
                replaced = true;
                assert(was[i as int].0 == command);
            } else {
                entries.push(self.entries[i]);
            }
            i += 1;
        }
        if !replaced {
            entries.push((command, key));
        }
        proof {
            assert forall|j: int, k: int| 0 <= j < k < entries@.len() implies entries@[j].0
                != entries@[k].0 by {
                if k < was.len() {
                    assert(was[j].0 != was[k].0);
                } else {
                    assert(was[j].0 != command);
                }
            }
        }
        *self = Mappings { entries };
        proof {
            let now = self.entries@;
            let want = old(self)@.insert(command, key);
            assert forall|c: UiCommand| self@.dom().contains(c) == want.dom().contains(c) by {
                if self@.dom().contains(c) && c != command {
                    let k = choose|k: int| 0 <= k < now.len() && now[k].0 == c;
                    assert(was[k].0 == c);
                }
                if want.dom().contains(c) {
                    if c == command {
                        if replaced {
                            let k = choose|k: int| 0 <= k < was.len() && was[k].0 == command;
                            assert(now[k].0 == c);
                        } else {
                            assert(now[was.len() as int].0 == c);
                        }
                    } else {
                        let k = choose|k: int| 0 <= k < was.len() && was[k].0 == c;
                        assert(now[k].0 == c);
                    }
                }
            }
            assert forall|c: UiCommand| want.dom().contains(c) implies self@[c] == want[c] by {
                if c == command {
                    if replaced {
                        let k = choose|k: int| 0 <= k < was.len() && was[k].0 == command;
                        assert(now[k].0 == c);
                        at_place(now, k);
                    } else {
                        at_place(now, was.len() as int);
                    }
                } else {
                    let k = choose|k: int| 0 <= k < was.len() && was[k].0 == c;
                    assert(now[k] == was[k]);
                    at_place(now, k);
                    at_place(was, k);
                }
            }
            assert(self@ =~= want);
        }
    }

    fn within(&self, other: &Mappings) -> (r: bool)
        ensures
            r == forall|c: UiCommand|
                self@.dom().contains(c) ==> #[trigger] other@.dom().contains(c) && other@[c]
                    == self@[c],
    {
        proof {
            use_type_invariant(self);
        }
        let mut i: usize = 0;
        while i < self.entries.len()
            invariant
                i <= self.entries@.len(),
                distinct(self.entries@),
                forall|k: int|
                    0 <= k < i ==> other@.dom().contains((#[trigger] self.entries@[k]).0)
                        && other@[self.entries@[k].0] == self.entries@[k].1,
            decreases self.entries@.len() - i,
        {
            let (command, key) = self.entries[i];
            proof {
                at_place(self.entries@, i as int);
                assert(self.entries@[i as int].0 == command);
                assert(self@.dom().contains(command));
            }
            match other.get(command) {
                Some(k) => {
                    if k != key {
                        assert(other@.dom().contains(command));
                        return false;
                    }
                },
                None => {
                    assert(!other@.dom().contains(command));
                    return false;
                },
            }
            i += 1;
        }
        proof {
            assert forall|c: UiCommand| self@.dom().contains(c) implies
                #[trigger] other@.dom().contains(c) && other@[c] == self@[c] by {
                let k = choose|k: int| 0 <= k < self.entries@.len() && self.entries@[k].0 == c;
                at_place(self.entries@, k);
            }
        }
        true
    }

    /// Whether the same buttons stand for the same keys.
    pub fn same(&self, other: &Mappings) -> (r: bool)
        ensures
            r == (self@ == other@),
    {
        let r = self.within(other) && other.within(self);
        proof {
            if r {
                assert forall|c: UiCommand| self@.dom().contains(c) == other@.dom().contains(
                    c,
                ) by {}
                assert(self@ =~= other@);
            }
        }
        r
    }

    /// A copy.
    pub fn copy(&self) -> (r: Mappings)
        ensures
            r@ == self@,
    {
        proof {
            use_type_invariant(self);
        }
        let mut entries: Vec<(UiCommand, Key)> = Vec::new();
        let mut i: usize = 0;
        while i < self.entries.len()
            invariant
                i <= self.entries@.len(),
                entries@ == self.entries@.take(i as int),
            decreases self.entries@.len() - i,
        {
            entries.push(self.entries[i]);
            i += 1;
        }
        assert(entries@ =~= self.entries@);
        let r = Mappings { entries };
        assert(r@ =~= self@);
        r
    }

    /// The mappings that hold where none are configured.
    pub fn defaults() -> (r: Mappings)
        ensures
            is_default_mapping(r@),
    {
        let mut r = Mappings::new();
        let mut code: u16 = 0;
        while code < 256
            invariant
                code <= 256,
                forall|c: UiCommand|
                    #![trigger r@.dom().contains(c)]
                    #![trigger c.code()]
                    r@.dom().contains(c) <==> default_code(c) is Some && c.code() < code,
                forall|c: UiCommand|
                    r@.dom().contains(c) ==> default_code(c) == Some((#[trigger] r@[c])@),
            decreases 256 - code,
        {
            let ghost before = r@;
            if let Some(command) = UiCommand::from_primitive(code as u8) {
                if let Some(key) = default_key(command) {
                    r.insert(command, key);
                }
            }
            proof {
                assert forall|c: UiCommand| r@.dom().contains(c) <==> default_code(c) is Some
                    && c.code() < code + 1 by {
                    if default_code(c) is Some && c.code() == code {
                        assert(UiCommand::with_code(c.code()) == Some(c));
                    }
                }
            }
            code += 1;
        }
        r
    }
}

/// Whether buttons stand for just the keys that they stand for by default.
pub open spec fn is_default_mapping(m: Map<UiCommand, Key>) -> bool {
    &&& forall|c: UiCommand| #[trigger] m.dom().contains(c) <==> default_code(c) is Some
    &&& forall|c: UiCommand| m.dom().contains(c) ==> default_code(c) == Some((#[trigger] m[c])@)
}

spec fn distinct(entries: Seq<(UiCommand, Key)>) -> bool {
    forall|j: int, k: int| 0 <= j < k < entries.len() ==> entries[j].0 != entries[k].0
}

spec fn place(entries: Seq<(UiCommand, Key)>, command: UiCommand) -> int {
    choose|i: int| 0 <= i < entries.len() && entries[i].0 == command
}

proof fn at_place(entries: Seq<(UiCommand, Key)>, i: int)
    requires
        distinct(entries),
        0 <= i < entries.len(),
    ensures
        place(entries, entries[i].0) == i,
{
    let p = place(entries, entries[i].0);
    assert(entries[i].0 == entries[i].0);
    assert(0 <= p < entries.len() && entries[p].0 == entries[i].0);
    if p < i {
        assert(entries[p].0 != entries[i].0);
    } else if i < p {
        assert(entries[i].0 != entries[p].0);
    }
}

/// Why a mapping in a configuration file makes no sense.
#[derive(Debug, Clone, PartialEq, Eq)]
pub enum MappingError {
    /// Not the name of a button.
    Command(String),
    /// Not the number of a key.
    Key(u16),
}

/// The mathematical value of a [`MappingError`].
pub enum MappingErrorView {
    Command(Seq<char>),
    Key(u16),
}

impl View for MappingError {
    type V = MappingErrorView;

    open spec fn view(&self) -> MappingErrorView {
        match self {
            MappingError::Command(name) => MappingErrorView::Command(name@),
            MappingError::Key(code) => MappingErrorView::Key(*code),
        }
    }
}

/// Why the first entry that makes no sense does not, if there is one.
pub open spec fn mapping_error(entries: Seq<(String, u16)>) -> Option<MappingErrorView>
    decreases entries.len(),
{
    if entries.len() == 0 {
        None
    } else {
        match mapping_error(entries.drop_last()) {
            Some(e) => Some(e),
            None => {
                let (name, code) = entries.last();
                if named(name@) is None {
                    Some(MappingErrorView::Command(name@))
                } else if code >= KEY_CNT {
                    Some(MappingErrorView::Key(code))
                } else {
                    None
                }
            },
        }
    }
}

/// The numbers of the keys that entries map buttons to. Of two entries for one button, the later one
/// holds.
pub open spec fn mapped_codes(entries: Seq<(String, u16)>) -> Map<UiCommand, u16>
    decreases entries.len(),
{
    if entries.len() == 0 {
        Map::empty()
    } else {
        mapped_codes(entries.drop_last()).insert(
            named(entries.last().0@)->Some_0,
            entries.last().1,
        )
    }
}

/// Whether mappings are to the keys with some numbers.
pub open spec fn maps_to(m: Map<UiCommand, Key>, codes: Map<UiCommand, u16>) -> bool {
    &&& m.dom() == codes.dom()
    &&& forall|c: UiCommand| m.dom().contains(c) ==> (#[trigger] m[c])@ == codes[c]
}

/// Read the mappings of a configuration file: names of buttons and numbers of keys.
pub fn de_mappings(entries: &Vec<(String, u16)>) -> (r: Result<Mappings, MappingError>)
    ensures
        match mapping_error(entries@) {
            Some(e) => r matches Err(err) && err@ == e,
            None => r matches Ok(m) && maps_to(m@, mapped_codes(entries@)),
        },
{
    let mut mappings = Mappings::new();
    let mut i: usize = 0;
    assert(mappings@.dom() =~= mapped_codes(entries@.take(0)).dom());
    while i < entries.len()
        invariant
            i <= entries@.len(),
            mapping_error(entries@.take(i as int)) is None,
            maps_to(mappings@, mapped_codes(entries@.take(i as int))),
        decreases entries@.len() - i,
    {
        let ghost next = entries@.take(i + 1);
        proof {
            assert(next.drop_last() =~= entries@.take(i as int));
            assert(next.last() == entries@[i as int]);
        }
        let name = entries[i].0.as_str();
        let code: u16 = entries[i].1;
        let command: UiCommand = match UiCommand::from_str(name) {
            Ok(command) => command,
            Err(_) => {
                proof {
                    error_stays(entries@, i + 1);
                }
                return Err(MappingError::Command(name.to_owned()));
            },
        };
        let key: Key = match Key::try_from(code) {
            Some(key) => key,
            None => {
                proof {
                    error_stays(entries@, i + 1);
                }
                return Err(MappingError::Key(code));
            },
        };
        mappings.insert(command, key);
        assert(mappings@.dom() =~= mapped_codes(next).dom());
        i += 1;
    }
    assert(entries@.take(i as int) =~= entries@);
    Ok(mappings)
}

proof fn error_stays(entries: Seq<(String, u16)>, i: int)
    requires
        0 <= i <= entries.len(),
        mapping_error(entries.take(i)) is Some,
    ensures
        mapping_error(entries) == mapping_error(entries.take(i)),
    decreases entries.len() - i,
{
    if i < entries.len() {
        assert(entries.take(i + 1).drop_last() =~= entries.take(i));
        error_stays(entries, i + 1);
    } else {
        assert(entries.take(i) =~= entries);
    }
}

/// The physical address where a configuration file has none.
pub fn de_physical_address_default() -> (r: Option<PhysicalAddress>)
    ensures
        r is None,
{
    None
}

/// A setting that is on where a configuration file does not say.
pub fn de_true() -> (r: bool)
    ensures
        r,
{
    true
}

/// The configuration of the daemon.
#[derive(Debug)]
pub struct Config {
    /// The default advertised OSD name for this device, max 14 bytes. If not
    /// set, it uses the hostname, or "CEC Device" if it can't get the hostname.
    pub osd_name: Option<String>,
    /// The vendor OUI for this device. Defaults to `None`.
    pub vendor_id: Option<VendorId>,
    /// The type of logical address this device should request. Defaults to `playback`.
    pub logical_address: LogicalAddressType,
    /// The requested physical address. If the device offloads this to the OS and
    /// we're unable to determine the correct one, use this.
    pub physical_address: Option<PhysicalAddress>,
    /// Desired key mappings for uinput.
    pub mappings: Mappings,
    /// Should cecd attempt to wake the TV when the device is woken? Defaults to false.
    pub wake_tv: bool,
    /// Should cecd attempt to suspend the TV when the device is suspended? Defaults to false.
    pub suspend_tv: bool,
    /// Should cecd announce that it is no longer the active source when the device is suspended?
    /// Defaults to true.
    pub inactive_source_on_suspend: bool,
    /// Should cecd attempt to suspend when receiving a Standby command? Defaults to false.
    pub allow_standby: bool,
    /// Should uinput mappings be enabled. Defaults to true.
    pub uinput: bool,
    /// Should cecd attempt to determine if it's the active source when it wakes up or starts.
    /// In theory we should always have this enabled, but due to shortcomings of the HDMI-CEC
    /// protocol, it is unreliable and can erroneously determine we're active when we're not.
    /// Defaults to true.
    pub request_active_source: bool,
}

/// The mathematical value of a [`Config`].
#[verifier::ext_equal]
pub struct ConfigView {
    pub osd_name: Option<Seq<char>>,
    pub vendor_id: Option<VendorId>,
    pub logical_address: LogicalAddressType,
    pub physical_address: Option<PhysicalAddress>,
    pub mappings: Map<UiCommand, Key>,
    pub wake_tv: bool,
    pub suspend_tv: bool,
    pub inactive_source_on_suspend: bool,
    pub allow_standby: bool,
    pub uinput: bool,
    pub request_active_source: bool,
}

/// The configuration of files that say nothing.
pub open spec fn default_config() -> ConfigView {
    ConfigView {
        osd_name: None,
        vendor_id: None,
        logical_address: LogicalAddressType::Unregistered,
        physical_address: None,
        mappings: Map::empty(),
        wake_tv: false,
        suspend_tv: false,
        inactive_source_on_suspend: true,
        allow_standby: false,
        uinput: true,
        request_active_source: true,
    }
}

impl View for Config {
    type V = ConfigView;

    open spec fn view(&self) -> ConfigView {
        ConfigView {
            osd_name: match self.osd_name {
                Some(name) => Some(name@),
                None => None,
            },
            vendor_id: self.vendor_id,
            logical_address: self.logical_address,
            physical_address: self.physical_address,
            mappings: self.mappings@,
            wake_tv: self.wake_tv,
            suspend_tv: self.suspend_tv,
            inactive_source_on_suspend: self.inactive_source_on_suspend,
            allow_standby: self.allow_standby,
            uinput: self.uinput,
            request_active_source: self.request_active_source,
        }
    }
}

impl Config {
    /// A copy.
    pub fn copy(&self) -> (r: Config)
        ensures
            r@ == self@,
    {
        Config {
            osd_name: match &self.osd_name {
                Some(name) => Some(name.as_str().to_owned()),
                None => None,
            },
            vendor_id: self.vendor_id,
            logical_address: self.logical_address,
            physical_address: self.physical_address,
            mappings: self.mappings.copy(),
            wake_tv: self.wake_tv,
            suspend_tv: self.suspend_tv,
            inactive_source_on_suspend: self.inactive_source_on_suspend,
            allow_standby: self.allow_standby,
            uinput: self.uinput,
            request_active_source: self.request_active_source,
        }
    }
}

impl Default for Config {
    /// The configuration of files that say nothing.
    fn default() -> (r: Self)
        ensures
            r@ == default_config(),
    {
        Config {
            osd_name: None,
            vendor_id: None,
            logical_address: LogicalAddressType::Unregistered,
            physical_address: de_physical_address_default(),
            mappings: Mappings::new(),
            wake_tv: false,
            suspend_tv: false,
            inactive_source_on_suspend: de_true(),
            allow_standby: false,
            uinput: de_true(),
            request_active_source: de_true(),
        }
    }
}

/// The configuration of files that say nothing: no name, no vendor, no address, no mappings; the
/// television is neither woken nor put to sleep, and the system is not suspended; the device says
/// when it is no source any more, turns buttons into keys, and asks for the active source.
pub proof fn files_that_say_nothing()
    ensures
        ({
            let config = default_config();
            &&& config.osd_name is None && config.vendor_id is None
            &&& config.physical_address is None
            &&& config.logical_address is Unregistered
            &&& config.mappings.dom() == Set::<UiCommand>::empty()
            &&& !config.wake_tv && !config.suspend_tv && !config.allow_standby
            &&& config.inactive_source_on_suspend && config.uinput && config.request_active_source
        }),
{
    assert(default_config().mappings.dom() =~= Set::empty());
}

/// Whether an entry makes sense: it names a button and has the number of a key.
pub open spec fn makes_sense(entry: (String, u16)) -> bool {
    named(entry.0@) is Some && entry.1 < 0x300
}

/// Entries are refused for the first of them that makes no sense: for its button if that is not
/// known, and else for its key. Where all make sense, none is refused.
pub proof fn the_first_error_counts(entries: Seq<(String, u16)>)
    ensures
        mapping_error(entries) is None <==> forall|i: int|
            0 <= i < entries.len() ==> makes_sense(#[trigger] entries[i]),
        mapping_error(entries) matches Some(e) ==> exists|i: int|
            {
                &&& 0 <= i < entries.len() && !makes_sense(#[trigger] entries[i])
                &&& forall|j: int| 0 <= j < i ==> makes_sense(#[trigger] entries[j])
                &&& e == (if named(entries[i].0@) is None {
                    MappingErrorView::Command(entries[i].0@)
                } else {
                    MappingErrorView::Key(entries[i].1)
                })
            },
    decreases entries.len(),
{
    if entries.len() > 0 {
        let rest = entries.drop_last();
        the_first_error_counts(rest);
        assert forall|i: int| 0 <= i < rest.len() implies #[trigger] rest[i] == entries[i] by {}
        if mapping_error(rest) is Some {
            let i = choose|i: int|
                {
                    &&& 0 <= i < rest.len() && !makes_sense(#[trigger] rest[i])
                    &&& forall|j: int| 0 <= j < i ==> makes_sense(#[trigger] rest[j])
                    &&& mapping_error(rest)->Some_0 == (if named(rest[i].0@) is None {
                        MappingErrorView::Command(rest[i].0@)
                    } else {
                        MappingErrorView::Key(rest[i].1)
                    })
                };
            assert(!makes_sense(entries[i]));
            assert forall|j: int| 0 <= j < i implies makes_sense(#[trigger] entries[j]) by {
                assert(rest[j] == entries[j]);
            }
        } else {
            let i = entries.len() - 1;
            assert forall|j: int| 0 <= j < i implies makes_sense(#[trigger] entries[j]) by {
                assert(rest[j] == entries[j]);
            }
            assert(entries[i] == entries.last());
        }
    }
}

/// A button stands for the key of the last entry that names it, and for none where none does.
pub proof fn the_last_entry_holds(entries: Seq<(String, u16)>, c: UiCommand)
    requires
        forall|i: int| 0 <= i < entries.len() ==> makes_sense(#[trigger] entries[i]),
    ensures
        mapped_codes(entries).dom().contains(c) <==> exists|i: int|
            0 <= i < entries.len() && named((#[trigger] entries[i]).0@) == Some(c),
        mapped_codes(entries).dom().contains(c) ==> exists|i: int|
            {
                &&& 0 <= i < entries.len() && named((#[trigger] entries[i]).0@) == Some(c)
                &&& mapped_codes(entries)[c] == entries[i].1
                &&& forall|j: int|
                    i < j < entries.len() ==> named((#[trigger] entries[j]).0@) != Some(c)
            },
    decreases entries.len(),
{
    if entries.len() > 0 {
        let rest = entries.drop_last();
        let last = entries.len() - 1;
        assert forall|i: int| 0 <= i < rest.len() implies #[trigger] rest[i] == entries[i] by {}
        assert forall|i: int| 0 <= i < rest.len() implies makes_sense(#[trigger] rest[i]) by {
            assert(makes_sense(entries[i]));
        }
        the_last_entry_holds(rest, c);
        assert(makes_sense(entries[last]));
        if named(entries[last].0@) == Some(c) {
            assert(mapped_codes(entries)[c] == entries[last].1);
        } else if mapped_codes(rest).dom().contains(c) {
            let i = choose|i: int|
                {
                    &&& 0 <= i < rest.len() && named((#[trigger] rest[i]).0@) == Some(c)
                    &&& mapped_codes(rest)[c] == rest[i].1
                    &&& forall|j: int|
                        i < j < rest.len() ==> named((#[trigger] rest[j]).0@) != Some(c)
                };
            assert(named(entries[i].0@) == Some(c));
            assert forall|j: int| i < j < entries.len() implies named((
            #[trigger] entries[j]).0@) != Some(c) by {
                if j < last {
                    assert(rest[j] == entries[j]);
                }
            }
        } else {
            assert forall|i: int| 0 <= i < entries.len() implies named((
            #[trigger] entries[i]).0@) != Some(c) by {
                if i < last {
                    assert(named(rest[i].0@) != Some(c));
                }
            }
        }
    }
}

} // verus!
