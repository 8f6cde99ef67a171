//! What the daemon keeps across devices: configuration, sleep and wake, and handlers of messages.

use std::collections::HashMap;
use vstd::prelude::*;
use vstd::string::StringSliceAdditionalSpecFns;
use vstd::utf8::{
    encode_utf8, encode_utf8_valid_utf8, is_char_boundary, length_of_first_scalar, pop_first_scalar, valid_utf8,
};

use crate::address::LogicalAddressType;
use crate::config::{default_config, is_default_mapping, Config, ConfigView, Mappings};
use crate::configure::{Configuration, ConfigureAction, ConfigureStage, Settings};
use crate::device::ConnectorInfo;
use crate::drm::DrmConnector;
use crate::error::str_eq;
use crate::keys::Key;
use crate::operand::UiCommand;
use crate::text::{begins_with, starts_with, views};

verus! {

/// For how long after a resume a device that appears is taken for one that was there before, in
/// milliseconds.
pub const RESUME_WAKE_TIMEOUT: u64 = 5000;

/// What devices are told.
#[derive(Debug, Clone)]
pub enum SystemMessage {
    Wake { wake_tv: bool, from_standby: bool },
    Standby { standby_tv: bool, force: bool },
    ReloadConfig,
    ReconfigureConnector(ConnectorInfo),
}

/// The state of the daemon.
pub struct System {
    pub osd_name: String,
    pub config: Config,
    /// The paths of the devices in use. No path occurs twice.
    pub devs: Vec<String>,
    pub standby: bool,
    /// Until when a device that appears is woken, in milliseconds.
    pub resume_wake_deadline: Option<u64>,
    /// The owners of the handlers of messages, by opcode.
    pub message_handlers: HashMap<u8, String>,
}

/// The name of a device that has none.
pub open spec fn fallback_name(hostname: Option<Seq<char>>) -> Seq<char> {
    match hostname {
        Some(name) if name.len() > 0 => name,
        _ => "CEC Device"@,
    }
}

/// The time until which a device that appears is woken, once that has been asked for, and whether
/// the device is.
pub open spec fn taken(deadline: Option<u64>, now: u64) -> (Option<u64>, bool) {
    (
        None,
        match deadline {
            Some(deadline) => now < deadline,
            None => false,
        },
    )
}

/// What devices are told when the system goes to sleep, by whether the television is to and whether
/// the system is on its way already.
pub open spec fn sleep_message(suspend_tv: bool, standby: bool) -> SystemMessage {
    SystemMessage::Standby { standby_tv: suspend_tv && !standby, force: false }
}

/// Whether the system is on its way to sleep once a device was told to stand by, and whether the
/// login manager has to be asked for that.
pub open spec fn put_to_sleep(standby: bool) -> (bool, bool) {
    (true, !standby)
}

/// What devices are told when all are to wake their televisions.
pub open spec fn wake_message() -> SystemMessage {
    SystemMessage::Wake { wake_tv: true, from_standby: false }
}

/// What devices are told when all are to put their televisions to standby.
pub open spec fn standby_message(force: bool) -> SystemMessage {
    SystemMessage::Standby { standby_tv: true, force }
}

/// What devices are told when the system wakes up, and until when a device that appears is woken.
pub open spec fn resume_message(wake_tv: bool, now: u64) -> (SystemMessage, Option<u64>) {
    (
        SystemMessage::Wake { wake_tv, from_standby: true },
        if wake_tv {
            Some((now + RESUME_WAKE_TIMEOUT) as u64)
        } else {
            None
        },
    )
}

/// The owners of handlers once someone has asked to handle messages with an opcode, and whether that
/// was granted: one who comes first stays.
pub open spec fn registered(handlers: Map<u8, String>, opcode: u8, owner: String) -> (
    Map<u8, String>,
    bool,
) {
    if handlers.dom().contains(opcode) {
        (handlers, false)
    } else {
        (handlers.insert(opcode, owner), true)
    }
}

/// The owners of handlers once someone has asked to handle messages with an opcode no more, and
/// whether that was granted: only the owner can ask.
pub open spec fn unregistered(handlers: Map<u8, String>, opcode: u8, owner: Seq<char>) -> (
    Map<u8, String>,
    bool,
) {
    if handlers.dom().contains(opcode) && handlers[opcode]@ == owner {
        (handlers.remove(opcode), true)
    } else {
        (handlers, false)
    }
}

/// The mathematical value of an optional string.
pub open spec fn opt_view(s: Option<String>) -> Option<Seq<char>> {
    match s {
        Some(s) => Some(s@),
        None => None,
    }
}

fn default_osd_name(hostname: &Option<String>) -> (r: String)
    ensures
        r@ == fallback_name(opt_view(*hostname)),
{
    match hostname {
        Some(name) if !name.as_str().is_empty() => name.as_str().to_owned(),
        _ => "CEC Device".to_owned(),
    }
}

/// The configuration that holds, by what was read and the name of the host. What the files leave
/// open is filled in.
pub open spec fn is_completed(
    config: ConfigView,
    read: ConfigView,
    hostname: Option<Seq<char>>,
) -> bool {
    &&& config == (ConfigView {
        osd_name: match read.osd_name {
            Some(name) => Some(name),
            None => Some(fallback_name(hostname)),
        },
        logical_address: if read.logical_address == LogicalAddressType::Unregistered {
            LogicalAddressType::Playback
        } else {
            read.logical_address
        },
        mappings: config.mappings,
        ..read
    })
    &&& if read.mappings == Map::<UiCommand, Key>::empty() {
        is_default_mapping(config.mappings)
    } else {
        config.mappings == read.mappings
    }
}

/// How much of a name fits in the fourteen bytes that are advertised: as many whole characters as
/// there is room for.
pub open spec fn fits(name: Seq<u8>, k: int) -> bool {
    if name.len() <= 14 {
        k == name.len()
    } else {
        &&& 0 <= k <= 14
        &&& is_char_boundary(name, k)
        &&& forall|j: int| k < j <= 14 ==> !is_char_boundary(name, j)
    }
}

/// Whether a name is what is advertised for another: as much of that as fits.
pub open spec fn is_trimmed(name: Seq<char>, trimmed: Seq<char>) -> bool {
    exists|k: int|
        #[trigger] fits(encode_utf8(name), k) && encode_utf8(trimmed) == encode_utf8(name).take(k)
}

/// One of up to four bytes in a row ends a character.
proof fn boundary_nearby(bytes: Seq<u8>, k: int)
    requires
        valid_utf8(bytes),
        0 <= k <= bytes.len(),
    ensures
        exists|b: int| k - 3 <= b <= k && 0 <= b && #[trigger] is_char_boundary(bytes, b),
    decreases bytes.len(),
{
    if k == 0 {
        assert(is_char_boundary(bytes, 0));
    } else {
        let n = length_of_first_scalar(bytes);
        let rest = pop_first_scalar(bytes);
        assert(1 <= n <= 4);
        if k < n {
            assert(is_char_boundary(bytes, 0));
        } else {
            boundary_nearby(rest, k - n);
            let b = choose|b: int|
                k - n - 3 <= b <= k - n && 0 <= b && #[trigger] is_char_boundary(rest, b);
            assert(is_char_boundary(bytes, b + n));
        }
    }
}

impl System {
    /// The daemon before any configuration has been read.
    pub fn new(hostname: Option<String>) -> (r: System)
        ensures
            r.osd_name@ == fallback_name(opt_view(hostname)),
            r.config@ == default_config(),
            r.devs@ == Seq::<String>::empty(),
            !r.standby,
            r.resume_wake_deadline is None,
            r.message_handlers@ == Map::<u8, String>::empty(),
    {
        System {
            osd_name: default_osd_name(&hostname),
            config: Config::default(),
            devs: Vec::new(),
            standby: false,
            resume_wake_deadline: None,
            message_handlers: HashMap::new(),
        }
    }

    /// Take over a configuration. The name that is advertised is that of the configuration, or where
    /// it has none, that of the host. Devices are to be sent the message that is returned.
    pub fn set_config(&mut self, config: Config, hostname: Option<String>) -> (r: SystemMessage)
        ensures
            r == SystemMessage::ReloadConfig,
            is_completed(final(self).config@, config@, opt_view(hostname)),
            final(self).osd_name@ == (match config@.osd_name {
                Some(name) => name,
                None => fallback_name(opt_view(hostname)),
            }),
            final(self).config@.osd_name == Some(final(self).osd_name@),
            final(self).devs == old(self).devs,
            final(self).standby == old(self).standby,
            final(self).resume_wake_deadline == old(self).resume_wake_deadline,
            final(self).message_handlers == old(self).message_handlers,
    {
        self.osd_name =
        match &config.osd_name {
            Some(osd_name) => osd_name.as_str().to_owned(),
            None => default_osd_name(&hostname),
        };
        let Config {
            osd_name,
            vendor_id,
            logical_address,
            physical_address,
            mappings,
            wake_tv,
            suspend_tv,
            inactive_source_on_suspend,
            allow_standby,
            uinput,
            request_active_source,
        } = config;
        let logical_address: LogicalAddressType = if logical_address
            == LogicalAddressType::Unregistered {
            LogicalAddressType::Playback
        } else {
            logical_address
        };
        let osd_name: Option<String> = match osd_name {
            Some(name) => Some(name),
            None => Some(default_osd_name(&hostname)),
        };
        let mappings = if mappings.is_empty() {
            Mappings::defaults()
        } else {
            mappings
        };
        self.config =
        Config {
            osd_name,
            vendor_id,
            logical_address,
            physical_address,
            mappings,
            wake_tv,
            suspend_tv,
            inactive_source_on_suspend,
            allow_standby,
            uinput,
            request_active_source,
        };
        SystemMessage::ReloadConfig
    }

    /// The name to advertise: as many whole characters of the name as fit in fourteen bytes.
    pub fn trimmed_osd_name(&self) -> (r: &str)
        ensures
            is_trimmed(self.osd_name@, r@),
            r.spec_bytes().len() <= 14,
    {
        let name = self.osd_name.as_str();
        let ghost bytes = name.spec_bytes();
        proof {
            encode_utf8_valid_utf8(name@);
        }
        let n: usize = name.as_bytes().len();
        if n <= 14 {
            proof {
                assert(fits(bytes, n as int));
                assert(bytes.take(n as int) =~= bytes);
            }
            return name;
        }
        let mut i: usize = 14;
        proof {
            boundary_nearby(bytes, 14);
        }
        while i > 0
            invariant
                bytes == name.spec_bytes(),
                bytes == encode_utf8(self.osd_name@),
                valid_utf8(bytes),
                n == bytes.len(),
                n > 14,
                i <= 14,
                exists|b: int| 11 <= b <= i && #[trigger] is_char_boundary(bytes, b),
                forall|j: int| i < j <= 14 ==> !is_char_boundary(bytes, j),
            decreases i,
        {
            if name.is_char_boundary(i) {
                let (r, _) = name.split_at(i);
                proof {
                    assert(fits(bytes, i as int));
                    assert(bytes.take(i as int) =~= bytes.subrange(0, i as int));
                }
                return r;
            }
            i -= 1;
        }
        name
    }

    /// Begin to configure a device that may be known to have a connector, with the settings that
    /// hold and the name that is advertised.
    pub fn configure_dev(&self, connector: Option<DrmConnector>) -> (r: (
        Configuration,
        ConfigureAction,
    ))
        ensures
            r.0 == (Configuration {
                stage: ConfigureStage::DriverName,
                settings: Settings {
                    vendor_id: self.config.vendor_id,
                    logical_address: self.config.logical_address,
                    physical_address: self.config.physical_address,
                },
                osd_name: r.0.osd_name,
                connector,
                caps: 0,
                info: ConnectorInfo::NoConnector,
                new_connector: None,
                tries: 0,
            }),
            r.0.osd_name matches Some(name) && is_trimmed(self.osd_name@, name@),
            r.1 == ConfigureAction::ReadDriverName,
            r.0.wf(),
    {
        let settings = Settings {
            vendor_id: self.config.vendor_id,
            logical_address: self.config.logical_address,
            physical_address: self.config.physical_address,
        };
        let name = self.trimmed_osd_name();
        Configuration::start(settings, name.to_owned(), connector)
    }

    /// Go to sleep or wake up, as the login manager says. The television is not put to standby where
    /// it is what put the system to sleep. Devices are to be sent the message that is returned.
    pub fn prepare_for_sleep(&mut self, sleep: bool, now: u64) -> (r: SystemMessage)
        requires
            now + RESUME_WAKE_TIMEOUT <= u64::MAX,
        ensures
            final(self).standby == sleep,
            (r, final(self).resume_wake_deadline) == (if sleep {
                (
                    sleep_message(old(self).config.suspend_tv, old(self).standby),
                    old(self).resume_wake_deadline,
                )
            } else {
                resume_message(old(self).config.wake_tv, now)
            }),
            final(self).osd_name == old(self).osd_name,
            final(self).config == old(self).config,
            final(self).devs == old(self).devs,
            final(self).message_handlers == old(self).message_handlers,
    {
        if !sleep {
            self.standby = false;
            let wake_tv = self.config.wake_tv;
            self.resume_wake_deadline =
            if wake_tv {
                Some(now + RESUME_WAKE_TIMEOUT)
            } else {
                None
            };
            SystemMessage::Wake { wake_tv, from_standby: true }
        } else {
            let standby_tv = self.config.suspend_tv && !self.standby;
            self.standby = true;
            SystemMessage::Standby { standby_tv, force: false }
        }
    }

    /// Go to sleep because a device was told to. Tells whether the login manager has to be asked,
    /// which it has been already where the system is on its way to sleep.
    pub fn suspend(&mut self) -> (r: bool)
        ensures
            (final(self).standby, r) == put_to_sleep(old(self).standby),
            final(self).osd_name == old(self).osd_name,
            final(self).config == old(self).config,
            final(self).devs == old(self).devs,
            final(self).resume_wake_deadline == old(self).resume_wake_deadline,
            final(self).message_handlers == old(self).message_handlers,
    {
        if self.standby {
            return false;
        }
        self.standby = true;
        true
    }

    /// Whether a device that appears now is to be woken. It is asked once after a resume.
    pub fn take_resume_wake(&mut self, now: u64) -> (r: bool)
        ensures
            (final(self).resume_wake_deadline, r) == taken(old(self).resume_wake_deadline, now),
            final(self).osd_name == old(self).osd_name,
            final(self).config == old(self).config,
            final(self).devs == old(self).devs,
            final(self).standby == old(self).standby,
            final(self).message_handlers == old(self).message_handlers,
    {
        match self.resume_wake_deadline.take() {
            Some(deadline) => now < deadline,
            None => false,
        }
    }

    fn dev_index(&self, path: &str) -> (r: Option<usize>)
        ensures
            match r {
                Some(i) => i < self.devs@.len() && self.devs@[i as int]@ == path@ && forall|k: int|
                    0 <= k < i ==> (#[trigger] self.devs@[k])@ != path@,
                None => !views(self.devs@).contains(path@),
            },
    {
        let mut i: usize = 0;
        while i < self.devs.len()
            invariant
                i <= self.devs@.len(),
                forall|k: int| 0 <= k < i ==> (#[trigger] self.devs@[k])@ != path@,
            decreases self.devs@.len() - i,
        {
            if str_eq(self.devs[i].as_str(), path) {
                return Some(i);
            }
            i += 1;
        }
        proof {
            assert forall|k: int| 0 <= k < self.devs@.len() implies views(self.devs@)[k] != path@ by {
                assert(self.devs@[k]@ != path@);
            }
        }
        None
    }

    /// Whether a file beside others may be a CEC device that is not in use yet.
    pub fn is_new_dev(&self, name: &str, path: &str) -> (r: bool)
        ensures
            r == (begins_with(name@, "cec"@) && !views(self.devs@).contains(path@)),
    {
        let known = match self.dev_index(path) {
            Some(i) => {
                assert(views(self.devs@)[i as int] == path@);
                true
            },
            None => false,
        };
        starts_with(name, "cec") && !known
    }

    /// Note that a device is in use. A device that is already in use is not noted again.
    pub fn find_dev(&mut self, path: &str) -> (r: bool)
        ensures
            r == !views(old(self).devs@).contains(path@),
            views(final(self).devs@) == (if r {
                views(old(self).devs@).push(path@)
            } else {
                views(old(self).devs@)
            }),
            final(self).osd_name == old(self).osd_name,
            final(self).config == old(self).config,
            final(self).standby == old(self).standby,
            final(self).resume_wake_deadline == old(self).resume_wake_deadline,
            final(self).message_handlers == old(self).message_handlers,
    {
        match self.dev_index(path) {
            Some(i) => {
                assert(views(self.devs@)[i as int] == path@);
                false
            },
            None => {
                self.devs.push(path.to_owned());
                assert(views(self.devs@) =~= views(old(self).devs@).push(path@));
                true
            },
        }
    }

    /// Note that a device is not in use any more. Tells whether it was.
    pub fn close_dev(&mut self, path: &str) -> (r: bool)
        ensures
            r == views(old(self).devs@).contains(path@),
            !r ==> final(self).devs == old(self).devs,
            r ==> views(final(self).devs@) == views(old(self).devs@).remove(
                views(old(self).devs@).index_of_first(path@)->Some_0,
            ),
            views(old(self).devs@).no_duplicates() ==> {
                &&& views(final(self).devs@).no_duplicates()
                &&& forall|p: Seq<char>| #[trigger]
                    views(final(self).devs@).contains(p) <==> p != path@ && views(
                        old(self).devs@,
                    ).contains(p)
            },
            final(self).osd_name == old(self).osd_name,
            final(self).config == old(self).config,
            final(self).standby == old(self).standby,
            final(self).resume_wake_deadline == old(self).resume_wake_deadline,
            final(self).message_handlers == old(self).message_handlers,
    {
        match self.dev_index(path) {
            Some(i) => {
                let ghost was = views(self.devs@);
                assert(was[i as int] == path@);
                proof {
                    assert forall|k: int| 0 <= k < i implies was[k] != path@ by {
                        assert(self.devs@[k]@ != path@);
                    }
                    was.index_of_first_ensures(path@);
                }
                let _ = self.devs.remove(i);
                proof {
                    let now = views(self.devs@);
                    assert(now =~= was.remove(i as int));
                    if was.no_duplicates() {
                        assert forall|p: Seq<char>| #[trigger] now.contains(p) <==> p != path@
                            && was.contains(p) by {
                            if now.contains(p) {
                                let k = choose|k: int| 0 <= k < now.len() && now[k] == p;
                                if k < i {
                                    assert(was[k] == p);
                                } else {
                                    assert(was[k + 1] == p);
                                }
                            }
                            if p != path@ && was.contains(p) {
                                let k = choose|k: int| 0 <= k < was.len() && was[k] == p;
                                if k < i {
                                    assert(now[k] == p);
                                } else {
                                    assert(now[k - 1] == p);
                                }
                            }
                        }
                    }
                }
                true
            },
            None => false,
        }
    }

    /// Whether someone handles messages with an opcode.
    pub fn has_message_handler(&self, opcode: u8) -> (r: bool)
        ensures
            r == self.message_handlers@.dom().contains(opcode),
    {
        broadcast use vstd::std_specs::hash::group_hash_axioms;

        self.message_handlers.contains_key(&opcode)
    }

    /// Let someone handle messages with an opcode, unless someone does already.
    pub fn register_message_handler(&mut self, opcode: u8, owner: String) -> (r: bool)
        ensures
            (final(self).message_handlers@, r) == registered(
                old(self).message_handlers@,
                opcode,
                owner,
            ),
            final(self).osd_name == old(self).osd_name,
            final(self).config == old(self).config,
            final(self).devs == old(self).devs,
            final(self).standby == old(self).standby,
            final(self).resume_wake_deadline == old(self).resume_wake_deadline,
    {
        broadcast use vstd::std_specs::hash::group_hash_axioms;

        if self.message_handlers.contains_key(&opcode) {
            return false;
        }
        self.message_handlers.insert(opcode, owner);
        true
    }

    /// Let messages with an opcode be handled no more by the one who does. Nobody else can say so.
    pub fn unregister_message_handler(&mut self, opcode: u8, owner: &str) -> (r: bool)
        ensures
            (final(self).message_handlers@, r) == unregistered(
                old(self).message_handlers@,
                opcode,
                owner@,
            ),
            final(self).osd_name == old(self).osd_name,
            final(self).config == old(self).config,
            final(self).devs == old(self).devs,
            final(self).standby == old(self).standby,
            final(self).resume_wake_deadline == old(self).resume_wake_deadline,
    {
        broadcast use vstd::std_specs::hash::group_hash_axioms;

        let owned = match self.message_handlers.get(&opcode) {
            Some(current) => str_eq(current.as_str(), owner),
            None => false,
        };
        if owned {
            self.message_handlers.remove(&opcode);
        }
        owned
    }

    /// What devices are told when all are to wake their televisions.
    pub fn wake_all() -> (r: SystemMessage)
        ensures
            r == wake_message(),
    {
        SystemMessage::Wake { wake_tv: true, from_standby: false }
    }

    /// What devices are told when all are to put their televisions to standby.
    pub fn standby_all(force: bool) -> (r: SystemMessage)
        ensures
            r == standby_message(force),
    {
        SystemMessage::Standby { standby_tv: true, force }
    }
}

/// How much of a name fits is settled by the name, and is never more than fourteen bytes nor less
/// than eleven where there is more.
pub proof fn what_fits_is_settled(name: Seq<char>, j: int, k: int)
    requires
        fits(encode_utf8(name), j),
        fits(encode_utf8(name), k),
    ensures
        j == k,
        k <= 14,
        encode_utf8(name).len() > 14 ==> k >= 11,
{
    let bytes = encode_utf8(name);
    encode_utf8_valid_utf8(name);
    if bytes.len() > 14 {
        boundary_nearby(bytes, 14);
    }
}

/// A device that appears is woken at most once after a resume.
pub proof fn a_resume_wakes_once(deadline: Option<u64>, now: u64, later: u64)
    ensures
        !taken(taken(deadline, now).0, later).1,
{
}

/// Who is refused changes nothing, whoever came first keeps handling, and nobody else can end that.
pub proof fn handlers_stay(
    handlers: Map<u8, String>,
    opcode: u8,
    owner: String,
    second: String,
    stranger: Seq<char>,
)
    requires
        !handlers.dom().contains(opcode),
        stranger != owner@,
    ensures
        registered(registered(handlers, opcode, owner).0, opcode, second) == (
            registered(handlers, opcode, owner).0,
            false,
        ),
        unregistered(registered(handlers, opcode, owner).0, opcode, stranger) == (
            registered(handlers, opcode, owner).0,
            false,
        ),
{
}

/// To stop handling undoes to have begun it.
pub proof fn unregistering_undoes_registering(handlers: Map<u8, String>, opcode: u8, owner: String)
    requires
        !handlers.dom().contains(opcode),
    ensures
        unregistered(registered(handlers, opcode, owner).0, opcode, owner@) == (handlers, true),
{
    assert(handlers.insert(opcode, owner).remove(opcode) =~= handlers);
}

/// A configuration is completed by what it leaves open: the name of the host, or a fixed one, the
/// kind of address of a player, and the mappings by default. All else is as it was read.
pub proof fn what_is_open_is_filled_in(
    config: ConfigView,
    read: ConfigView,
    hostname: Option<Seq<char>>,
)
    requires
        is_completed(config, read, hostname),
    ensures
        read.osd_name is Some ==> config.osd_name == read.osd_name,
        read.osd_name is None && (hostname matches Some(name) && name.len() > 0) ==> config.osd_name
            == hostname,
        read.osd_name is None && !(hostname matches Some(name) && name.len() > 0)
            ==> config.osd_name == Some("CEC Device"@),
        read.logical_address is Unregistered ==> config.logical_address is Playback,
        !(read.logical_address is Unregistered) ==> config.logical_address == read.logical_address,
        read.mappings.dom() != Set::<UiCommand>::empty() ==> config.mappings == read.mappings,
        read.mappings.dom() == Set::<UiCommand>::empty() ==> forall|c: UiCommand|
            {
                &&& #[trigger] config.mappings.dom().contains(c) <==> crate::keys::default_code(
                    c,
                ) is Some
                &&& config.mappings.dom().contains(c) ==> Some(config.mappings[c]@)
                    == crate::keys::default_code(c)
            },
        config.vendor_id == read.vendor_id,
        config.physical_address == read.physical_address,
        config.wake_tv == read.wake_tv,
        config.suspend_tv == read.suspend_tv,
        config.inactive_source_on_suspend == read.inactive_source_on_suspend,
        config.allow_standby == read.allow_standby,
        config.uinput == read.uinput,
        config.request_active_source == read.request_active_source,
{
    if read.mappings.dom() == Set::<UiCommand>::empty() {
        assert(read.mappings =~= Map::empty());
    }
}

/// A device that appears in time after a resume is woken, and one that appears later or without a
/// resume is not. Either way the resume is used up.
pub proof fn devices_are_woken_in_time(deadline: u64, now: u64)
    ensures
        taken(Some(deadline), now).1 == (now < deadline),
        !taken(None, now).1,
        taken(Some(deadline), now).0 is None,
        taken(None, now).0 is None,
{
}

/// Whoever asks first to handle messages of a kind does, and changes nothing about other kinds.
pub proof fn the_first_handler_is_granted(
    handlers: Map<u8, String>,
    opcode: u8,
    owner: String,
    other: u8,
)
    requires
        other != opcode,
    ensures
        registered(handlers, opcode, owner).1 == !handlers.dom().contains(opcode),
        registered(handlers, opcode, owner).0.dom().contains(opcode),
        !handlers.dom().contains(opcode) ==> registered(handlers, opcode, owner).0[opcode] == owner,
        handlers.dom().contains(opcode) ==> registered(handlers, opcode, owner).0 == handlers,
        registered(handlers, opcode, owner).0.dom().contains(other) == handlers.dom().contains(
            other,
        ),
        registered(handlers, opcode, owner).0[other] == handlers[other],
        unregistered(handlers, opcode, owner@).0.dom().contains(other) == handlers.dom().contains(
            other,
        ),
        unregistered(handlers, opcode, owner@).0[other] == handlers[other],
        unregistered(handlers, opcode, owner@).1 == (handlers.dom().contains(opcode)
            && handlers[opcode]@ == owner@),
        unregistered(handlers, opcode, owner@).1 ==> !unregistered(
            handlers,
            opcode,
            owner@,
        ).0.dom().contains(opcode),
{
}

/// What is advertised of a name is the beginning of its bytes, all of them where they are no more
/// than fourteen, and else up to the end of a character, so that no further character fits.
pub proof fn names_are_cut_between_characters(name: Seq<char>, trimmed: Seq<char>)
    requires
        is_trimmed(name, trimmed),
    ensures
        encode_utf8(trimmed).len() <= 14,
        encode_utf8(name).take(encode_utf8(trimmed).len() as int) == encode_utf8(trimmed),
        encode_utf8(name).len() <= 14 ==> encode_utf8(trimmed) == encode_utf8(name),
        encode_utf8(name).len() > 14 ==> {
            let k = encode_utf8(trimmed).len() as int;
            &&& is_char_boundary(encode_utf8(name), k)
            &&& forall|j: int| k < j <= 14 ==> !is_char_boundary(encode_utf8(name), j)
        },
{
    let bytes = encode_utf8(name);
    let k = choose|k: int| #[trigger] fits(bytes, k) && encode_utf8(trimmed) == bytes.take(k);
    if bytes.len() <= 14 {
        assert(bytes.take(k) =~= bytes);
    }
}

/// When the system goes to sleep by itself, the television does too where that is wanted, and never
/// by force. It does not where a device was told to stand by, so that the system is on its way.
pub proof fn sleep_takes_the_television_along(suspend_tv: bool, standby: bool)
    ensures
        sleep_message(suspend_tv, standby) matches SystemMessage::Standby { standby_tv, force }
            && !force && (standby_tv <==> suspend_tv && !standby),
{
}

/// When the system wakes up, the television does too where that is wanted. A device that appears
/// within five seconds is woken then, the first time, and none where it is not wanted.
pub proof fn resume_takes_the_television_along(wake_tv: bool, now: u64, later: u64)
    requires
        now + 5000 <= u64::MAX,
    ensures
        resume_message(wake_tv, now).0 == (SystemMessage::Wake { wake_tv, from_standby: true }),
        wake_tv ==> taken(resume_message(wake_tv, now).1, later).1 == (later < now + 5000),
        !wake_tv ==> !taken(resume_message(wake_tv, now).1, later).1,
{
}

/// A system that a device puts to sleep asks the login manager for that once, and the television,
/// which asked for it, is not put to standby.
pub proof fn a_system_is_put_to_sleep_once(standby: bool, suspend_tv: bool)
    ensures
        put_to_sleep(standby).1 == !standby,
        !put_to_sleep(put_to_sleep(standby).0).1,
        sleep_message(suspend_tv, put_to_sleep(standby).0) matches SystemMessage::Standby {
            standby_tv,
            ..
        } && !standby_tv,
{
}

/// Who asks for all televisions to wake or to stand by gets that, by force where it is asked for,
/// without the system having slept.
pub proof fn calls_reach_all_televisions(force: bool)
    ensures
        wake_message() matches SystemMessage::Wake { wake_tv, from_standby } && wake_tv
            && !from_standby,
        standby_message(force) matches SystemMessage::Standby { standby_tv, force: by_force }
            && standby_tv && by_force == force,
{
}

} // verus!
