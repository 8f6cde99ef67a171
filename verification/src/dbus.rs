//! What the daemon offers on the message bus: names, properties and calls.

use std::collections::HashMap;
use vstd::prelude::*;

use crate::address::{LogicalAddress, LogicalAddressType, PhysicalAddress, Timeout, VendorId};
use crate::codec::{decoded_code, Coded, OperandEncodable};
use crate::config::{Config, ConfigView};
use crate::device::{Envelope, MessageData};
use crate::error::{outcome, str_eq, Error as CecError, ErrorView, RxError, TxError};
use crate::keys::Key;
use crate::lifecycle::vendor_number;
use crate::message::{Message, Opcode};
use crate::operand::UiCommand;
use crate::system::System;
use crate::task::{static_handlers, Properties};
use crate::text::{begins_with, strip_prefix};

verus! {

/// The target that stands for the device that plays the sound.
pub const CURRENT_AUDIO_LOG_ADDR: u8 = 255;

/// The path under which the daemon is found.
pub open spec fn daemon_path() -> Seq<char> {
    "/com/steampowered/CecDaemon1"@
}

/// The name of an error on the message bus.
pub open spec fn error_name(e: ErrorView) -> Seq<char> {
    match e {
        ErrorView::OutOfRange { .. } => "com.steampowered.CecDaemon1.Error.OutOfRange"@,
        ErrorView::InvalidValueForType { .. } =>
            "com.steampowered.CecDaemon1.Error.InvalidValueForType"@,
        ErrorView::InvalidData => "com.steampowered.CecDaemon1.Error.InvalidData"@,
        ErrorView::Timeout => "com.steampowered.CecDaemon1.Error.Timeout"@,
        ErrorView::Abort => "com.steampowered.CecDaemon1.Error.Abort"@,
        ErrorView::NoLogicalAddress => "com.steampowered.CecDaemon1.Error.NoLogicalAddress"@,
        ErrorView::Disconnected => "com.steampowered.CecDaemon1.Error.Disconnected"@,
        ErrorView::Unsupported => "com.steampowered.CecDaemon1.Error.Unsupported"@,
        ErrorView::SystemError(_) => "com.steampowered.CecDaemon1.Error.SystemError"@,
        ErrorView::TxError(e) => match e {
            TxError::ArbLost => "com.steampowered.CecDaemon1.TxError.ArbLost"@,
            TxError::Nack => "com.steampowered.CecDaemon1.TxError.Nack"@,
            TxError::LowDrive => "com.steampowered.CecDaemon1.TxError.LowDrive"@,
            TxError::UnknownError => "com.steampowered.CecDaemon1.TxError.Unknown"@,
            TxError::MaxRetries => "com.steampowered.CecDaemon1.TxError.MaxRetries"@,
            TxError::Aborted => "com.steampowered.CecDaemon1.TxError.Aborted"@,
            TxError::Timeout => "com.steampowered.CecDaemon1.TxError.Timeout"@,
        },
        ErrorView::RxError(e) => match e {
            RxError::Timeout => "com.steampowered.CecDaemon1.RxError.Timeout"@,
            RxError::FeatureAbort => "com.steampowered.CecDaemon1.RxError.FeatureAbort"@,
            RxError::Aborted => "com.steampowered.CecDaemon1.RxError.Aborted"@,
        },
        ErrorView::UnknownError(_) => "com.steampowered.CecDaemon1.Error.Unknown"@,
    }
}

/// What a call on the message bus fails with.
pub enum Error {
    Cec(CecError),
    /// An error of the message bus itself, by its name.
    FDO(String),
    /// Any other failure.
    Anyhow,
}

impl Error {
    /// The name of an error on the message bus.
    pub fn name(&self) -> (r: &str)
        ensures
            r@ == (match self {
                Error::Cec(e) => error_name(e@),
                Error::FDO(name) => name@,
                Error::Anyhow => "org.freedesktop.DBus.Error.Failed"@,
            }),
    {
        match self {
            Error::Cec(e) => match e {
                CecError::OutOfRange { .. } => "com.steampowered.CecDaemon1.Error.OutOfRange",
                CecError::InvalidValueForType { .. } =>
                    "com.steampowered.CecDaemon1.Error.InvalidValueForType",
                CecError::InvalidData => "com.steampowered.CecDaemon1.Error.InvalidData",
                CecError::Timeout => "com.steampowered.CecDaemon1.Error.Timeout",
                CecError::Abort => "com.steampowered.CecDaemon1.Error.Abort",
                CecError::NoLogicalAddress => "com.steampowered.CecDaemon1.Error.NoLogicalAddress",
                CecError::Disconnected => "com.steampowered.CecDaemon1.Error.Disconnected",
                CecError::Unsupported => "com.steampowered.CecDaemon1.Error.Unsupported",
                CecError::SystemError(_) => "com.steampowered.CecDaemon1.Error.SystemError",
                CecError::TxError(e) => match e {
                    TxError::ArbLost => "com.steampowered.CecDaemon1.TxError.ArbLost",
                    TxError::Nack => "com.steampowered.CecDaemon1.TxError.Nack",
                    TxError::LowDrive => "com.steampowered.CecDaemon1.TxError.LowDrive",
                    TxError::UnknownError => "com.steampowered.CecDaemon1.TxError.Unknown",
                    TxError::MaxRetries => "com.steampowered.CecDaemon1.TxError.MaxRetries",
                    TxError::Aborted => "com.steampowered.CecDaemon1.TxError.Aborted",
                    TxError::Timeout => "com.steampowered.CecDaemon1.TxError.Timeout",
                },
                CecError::RxError(e) => match e {
                    RxError::Timeout => "com.steampowered.CecDaemon1.RxError.Timeout",
                    RxError::FeatureAbort => "com.steampowered.CecDaemon1.RxError.FeatureAbort",
                    RxError::Aborted => "com.steampowered.CecDaemon1.RxError.Aborted",
                },
                CecError::UnknownError(_) => "com.steampowered.CecDaemon1.Error.Unknown",
            },
            Error::FDO(name) => name.as_str(),
            Error::Anyhow => "org.freedesktop.DBus.Error.Failed",
        }
    }
}

/// The upper case of a character, which may be several characters.
pub uninterp spec fn upper_case(c: char) -> Seq<char>;

/// The upper case of a character.
///
/// Calls `char::to_uppercase`, which maps a character by the Unicode tables. A letter from `a` to `z`
/// becomes the capital letter, 32 places before it.
#[verifier::external_body]
fn to_upper(c: char) -> (r: String)
    ensures
        r@ == upper_case(c),
        'a' <= c <= 'z' ==> r@ == seq![(c as u32 - 32) as char],
{
    c.to_uppercase().to_string()
}

/// Whether a character may stand in an element of an object path.
pub open spec fn is_path_char(c: char) -> bool {
    'a' <= c <= 'z' || 'A' <= c <= 'Z' || '0' <= c <= '9' || c == '_'
}

/// Whether a string is the path of an object: elements of letters, digits and underscores, each
/// behind a slash, or a slash alone.
pub open spec fn is_object_path(path: Seq<char>) -> bool {
    &&& path.len() > 0 && path[0] == '/'
    &&& path.len() > 1 ==> path.last() != '/'
    &&& forall|i: int| 0 <= i < path.len() ==> is_path_char(#[trigger] path[i]) || path[i] == '/'
    &&& forall|i: int| #![trigger path[i]]
        0 <= i < path.len() - 1 ==> !(path[i] == '/' && path[i + 1] == '/')
}

/// Whether a string is the path of an object.
///
/// Calls `zbus::zvariant::ObjectPath::try_from`, which refuses a string that does not begin with a
/// slash, ends with one but for the root, has two in a row, or holds anything but those and ASCII
/// letters, digits and underscores, and accepts all others.
#[verifier::external_body]
fn check_object_path(path: &str) -> (r: bool)
    ensures
        r == is_object_path(path@),
{
    zbus::zvariant::ObjectPath::try_from(path).is_ok()
}

/// The elements of a path in a row, each with its first letter in upper case. At the start of the
/// path, or behind a slash, is the first letter of an element.
pub open spec fn capitalized(path: Seq<char>, first: bool) -> Seq<char>
    decreases path.len(),
{
    if path.len() == 0 {
        Seq::empty()
    } else if path[0] == '/' {
        capitalized(path.skip(1), true)
    } else {
        (if first {
            upper_case(path[0])
        } else {
            seq![path[0]]
        }) + capitalized(path.skip(1), false)
    }
}

/// The path without the directory of devices, if it is in there.
pub open spec fn below_dev(path: Seq<char>) -> Seq<char> {
    if begins_with(path, "/dev"@) {
        path.skip(4)
    } else {
        path
    }
}

/// The path on the message bus of the device with a path in the file system.
pub open spec fn bus_path(path: Seq<char>) -> Seq<char> {
    daemon_path() + "/Devices/"@ + capitalized(below_dev(path), true)
}

/// Whether a path is that of a device with a plain name: a small letter, then letters, digits and
/// underscores, in the directory of devices.
pub open spec fn is_plain_device(path: Seq<char>) -> bool {
    &&& path.len() > 5
    &&& path.take(5) == "/dev/"@
    &&& 'a' <= path[5] <= 'z'
    &&& forall|i: int| 5 <= i < path.len() ==> is_path_char(#[trigger] path[i])
}

/// The path on the message bus of a device with a plain name: it ends with that name in a capital
/// letter.
pub open spec fn plain_path(path: Seq<char>) -> Seq<char> {
    daemon_path() + "/Devices/"@ + (seq![(path[5] as u32 - 32) as char] + path.skip(6))
}

/// The path on the message bus of the device with a path in the file system, if there is one. There
/// is one for each device with a plain name.
pub fn device_path(path: &str) -> (r: Option<String>)
    ensures
        if is_object_path(bus_path(path@)) {
            r matches Some(s) && s@ == bus_path(path@)
        } else {
            r is None
        },
        is_plain_device(path@) ==> (r matches Some(s) && s@ == plain_path(path@)),
{
    proof {
        reveal_strlit("/dev");
        reveal_strlit("/dev/");
        if is_plain_device(path@) {
            assert(path@.take(4) =~= path@.take(5).take(4));
            assert("/dev/"@.take(4) =~= "/dev"@);
            assert(path@[4] == path@.take(5)[4]);
        }
    }
    let below = match strip_prefix(path, "/dev") {
        Some(rest) => rest,
        None => path,
    };
    assert(below@ =~= below_dev(path@));
    let mut out: String = "/com/steampowered/CecDaemon1".to_owned();
    out.append("/Devices/");
    let ghost head = out@;
    let n: usize = below.unicode_len();
    let mut first = true;
    let mut i: usize = 0;
    assert(below@.skip(0) =~= below@);
    while i < n
        invariant
            i <= n,
            n == below@.len(),
            is_plain_device(path@) ==> below@ == path@.skip(4) && below@[0] == '/',
            is_plain_device(path@) && i <= 1 ==> first,
            is_plain_device(path@) && i >= 2 ==> upper_case(path@[5]) == seq![
                (path@[5] as u32 - 32) as char,
            ],
            out@ + capitalized(below@.skip(i as int), first) == head + capitalized(below@, true),
        decreases n - i,
    {
        let c: char = below.get_char(i);
        let ghost rest = below@.skip(i as int);
        let ghost was = out@;
        proof {
            assert(rest[0] == c);
            assert(rest.skip(1) =~= below@.skip(i + 1));
            if is_plain_device(path@) && i > 0 {
                assert(is_path_char(path@[i + 4]));
            }
        }
        if c == '/' {
            first = true;
        } else {
            if first {
                out.append(to_upper(c).as_str());
            } else {
                out.append(below.substring_char(i, i + 1));
                assert(below@.subrange(i as int, i + 1) =~= seq![c]);
            }
            first = false;
            proof {
                let tail = capitalized(rest.skip(1), false);
                let piece = out@.skip(was.len() as int);
                assert(out@ + tail =~= was + (piece + tail));
            }
        }
        i += 1;
    }
    assert(capitalized(below@.skip(n as int), first) =~= Seq::empty());
    assert(out@ =~= bus_path(path@));
    proof {
        if is_plain_device(path@) {
            plain_device_path(path@);
        }
    }
    if check_object_path(out.as_str()) {
        Some(out)
    } else {
        None
    }
}

proof fn plain_device_path(path: Seq<char>)
    requires
        is_plain_device(path),
        upper_case(path[5]) == seq![(path[5] as u32 - 32) as char],
    ensures
        bus_path(path) == daemon_path() + "/Devices/"@ + (seq![(path[5] as u32 - 32) as char]
            + path.skip(6)),
        is_object_path(bus_path(path)),
{
    reveal_strlit("/dev/");
    reveal_strlit("/dev");
    reveal_strlit("/com/steampowered/CecDaemon1");
    reveal_strlit("/Devices/");
    let name = path.skip(5);
    assert(path.take(4) =~= path.take(5).take(4));
    assert("/dev/"@.take(4) =~= "/dev"@);
    assert(path[4] == path.take(5)[4]);
    assert(below_dev(path) =~= seq!['/'] + name);
    assert((seq!['/'] + name).skip(1) =~= name);
    assert(capitalized(seq!['/'] + name, true) == capitalized(name, true));
    assert(name.skip(1) =~= path.skip(6));
    assert forall|i: int| 0 <= i < name.skip(1).len() implies is_path_char(
        #[trigger] name.skip(1)[i],
    ) by {
        assert(name.skip(1)[i] == path[i + 6]);
    }
    plain_is_kept(name.skip(1));
    let out = bus_path(path);
    let head = daemon_path() + "/Devices/"@;
    let big = (path[5] as u32 - 32) as char;
    let tail = seq![big] + name.skip(1);
    assert(out =~= head + tail);
    assert(is_path_char(big));
    assert forall|i: int| 0 <= i < tail.len() implies is_path_char(#[trigger] tail[i]) by {
        if i > 0 {
            assert(tail[i] == name.skip(1)[i - 1]);
        }
    }
    assert forall|i: int| 0 <= i < out.len() implies is_path_char(#[trigger] out[i]) || out[i]
        == '/' by {
        if i >= head.len() {
            assert(out[i] == tail[i - head.len()]);
        }
    }
    assert(out.last() == tail.last());
    assert forall|i: int| #![trigger out[i]] 0 <= i < out.len() - 1 implies !(out[i] == '/'
        && out[i + 1] == '/') by {
        if i + 1 >= head.len() {
            assert(out[i + 1] == tail[i + 1 - head.len()]);
        }
    }
}

proof fn plain_is_kept(s: Seq<char>)
    requires
        forall|i: int| 0 <= i < s.len() ==> is_path_char(#[trigger] s[i]),
    ensures
        capitalized(s, false) == s,
    decreases s.len(),
{
    if s.len() > 0 {
        assert forall|i: int| 0 <= i < s.skip(1).len() implies is_path_char(
            #[trigger] s.skip(1)[i],
        ) by {
            assert(s.skip(1)[i] == s[i + 1]);
        }
        plain_is_kept(s.skip(1));
        assert(seq![s[0]] + s.skip(1) =~= s);
    }
}

/// A property of the configuration.
#[derive(Debug, Copy, Clone, PartialEq, Eq, Structural)]
pub enum ConfigProperty {
    OsdName,
    VendorId,
    LogicalAddress,
    Mappings,
    WakeTv,
    SuspendTv,
    InactiveSourceOnSuspend,
    AllowStandby,
    Uinput,
    RequestActiveSource,
}

/// What is known of the configuration to those who watch it.
pub struct CecConfig {
    pub cached_config: Config,
}

/// The properties, in the order in which changes are told.
pub open spec fn all_properties() -> Seq<ConfigProperty> {
    seq![
        ConfigProperty::OsdName,
        ConfigProperty::VendorId,
        ConfigProperty::LogicalAddress,
        ConfigProperty::Mappings,
        ConfigProperty::WakeTv,
        ConfigProperty::SuspendTv,
        ConfigProperty::InactiveSourceOnSuspend,
        ConfigProperty::AllowStandby,
        ConfigProperty::Uinput,
        ConfigProperty::RequestActiveSource,
    ]
}

/// Whether two configurations differ in a property.
pub open spec fn differs(property: ConfigProperty, a: ConfigView, b: ConfigView) -> bool {
    match property {
        ConfigProperty::OsdName => a.osd_name != b.osd_name,
        ConfigProperty::VendorId => a.vendor_id != b.vendor_id,
        ConfigProperty::LogicalAddress => a.logical_address != b.logical_address,
        ConfigProperty::Mappings => a.mappings != b.mappings,
        ConfigProperty::WakeTv => a.wake_tv != b.wake_tv,
        ConfigProperty::SuspendTv => a.suspend_tv != b.suspend_tv,
        ConfigProperty::InactiveSourceOnSuspend => a.inactive_source_on_suspend
            != b.inactive_source_on_suspend,
        ConfigProperty::AllowStandby => a.allow_standby != b.allow_standby,
        ConfigProperty::Uinput => a.uinput != b.uinput,
        ConfigProperty::RequestActiveSource => a.request_active_source != b.request_active_source,
    }
}

/// The properties of a list in which two configurations differ.
pub open spec fn differing(list: Seq<ConfigProperty>, a: ConfigView, b: ConfigView) -> Seq<
    ConfigProperty,
>
    decreases list.len(),
{
    if list.len() == 0 {
        Seq::empty()
    } else if differs(list.last(), a, b) {
        differing(list.drop_last(), a, b).push(list.last())
    } else {
        differing(list.drop_last(), a, b)
    }
}

/// The configuration as it is shown: a device that asks for no kind of logical address asks for that
/// of a player.
pub open spec fn shown(config: ConfigView) -> ConfigView {
    ConfigView {
        logical_address: if config.logical_address == LogicalAddressType::Unregistered {
            LogicalAddressType::Playback
        } else {
            config.logical_address
        },
        ..config
    }
}

fn same_name(a: &Option<String>, b: &Option<String>) -> (r: bool)
    ensures
        r == (crate::system::opt_view(*a) == crate::system::opt_view(*b)),
{
    match (a, b) {
        (Some(a), Some(b)) => str_eq(a.as_str(), b.as_str()),
        (None, None) => true,
        _ => false,
    }
}

fn same_vendor(a: &Option<VendorId>, b: &Option<VendorId>) -> (r: bool)
    ensures
        r == (*a == *b),
{
    match (a, b) {
        (Some(a), Some(b)) => {
            let r = a.to_sys() == b.to_sys();
            proof {
                if r {
                    VendorId::number_identifies(*a, *b);
                }
            }
            r
        },
        (None, None) => true,
        _ => false,
    }
}

fn has_changed(property: ConfigProperty, a: &Config, b: &Config) -> (r: bool)
    ensures
        r == differs(property, a@, b@),
{
    match property {
        ConfigProperty::OsdName => !same_name(&a.osd_name, &b.osd_name),
        ConfigProperty::VendorId => !same_vendor(&a.vendor_id, &b.vendor_id),
        ConfigProperty::LogicalAddress => a.logical_address != b.logical_address,
        ConfigProperty::Mappings => !a.mappings.same(&b.mappings),
        ConfigProperty::WakeTv => a.wake_tv != b.wake_tv,
        ConfigProperty::SuspendTv => a.suspend_tv != b.suspend_tv,
        ConfigProperty::InactiveSourceOnSuspend => a.inactive_source_on_suspend
            != b.inactive_source_on_suspend,
        ConfigProperty::AllowStandby => a.allow_standby != b.allow_standby,
        ConfigProperty::Uinput => a.uinput != b.uinput,
        ConfigProperty::RequestActiveSource => a.request_active_source != b.request_active_source,
    }
}

fn list_properties() -> (r: Vec<ConfigProperty>)
    ensures
        r@ == all_properties(),
{
    vec![
        ConfigProperty::OsdName,
        ConfigProperty::VendorId,
        ConfigProperty::LogicalAddress,
        ConfigProperty::Mappings,
        ConfigProperty::WakeTv,
        ConfigProperty::SuspendTv,
        ConfigProperty::InactiveSourceOnSuspend,
        ConfigProperty::AllowStandby,
        ConfigProperty::Uinput,
        ConfigProperty::RequestActiveSource,
    ]
}

/// Whether a button, by its bytes, stands for the key with a number.
pub open spec fn is_mapping(mappings: Map<UiCommand, Key>, bytes: Seq<u8>, code: u16) -> bool {
    exists|c: UiCommand| #[trigger]
        mappings.dom().contains(c) && bytes == c.encoded() && code == mappings[c]@
}

impl CecConfig {
    /// Show a configuration.
    pub fn new(config: &Config) -> (r: CecConfig)
        ensures
            r.cached_config@ == config@,
    {
        CecConfig { cached_config: config.copy() }
    }

    /// Show another configuration. Those who watch are to be told of the properties that are
    /// returned.
    pub fn reconfigure(&mut self, config: &Config) -> (r: Vec<ConfigProperty>)
        ensures
            final(self).cached_config@ == shown(config@),
            r@ == differing(all_properties(), shown(config@), old(self).cached_config@),
    {
        let mut new_config = config.copy();
        if new_config.logical_address == LogicalAddressType::Unregistered {
            new_config.logical_address = LogicalAddressType::Playback;
        }
        assert(new_config@ =~= shown(config@));
        let list = list_properties();
        let mut out: Vec<ConfigProperty> = Vec::new();
        let mut i: usize = 0;
        while i < list.len()
            invariant
                i <= list@.len(),
                out@ == differing(list@.take(i as int), new_config@, self.cached_config@),
            decreases list@.len() - i,
        {
            proof {
                assert(list@.take(i + 1).drop_last() =~= list@.take(i as int));
                assert(list@.take(i + 1).last() == list@[i as int]);
            }
            if has_changed(list[i], &new_config, &self.cached_config) {
                out.push(list[i]);
            }
            i += 1;
        }
        assert(list@.take(i as int) =~= list@);
        self.cached_config = new_config;
        out
    }

    /// The name of the device, or nothing.
    pub fn osd_name(&self) -> (r: &str)
        ensures
            r@ == (match self.cached_config@.osd_name {
                Some(name) => name,
                None => Seq::empty(),
            }),
    {
        match &self.cached_config.osd_name {
            Some(name) => name.as_str(),
            None => {
                proof {
                    reveal_strlit("");
                    assert(""@ =~= Seq::empty());
                }
                ""
            },
        }
    }

    /// The number of the vendor, or -1.
    pub fn vendor_id(&self) -> (r: i32)
        ensures
            r == vendor_number(self.cached_config.vendor_id),
    {
        match self.cached_config.vendor_id {
            Some(v) => v.to_sys() as i32,
            None => -1,
        }
    }

    /// The number of the kind of logical address.
    pub fn logical_address(&self) -> (r: u8)
        ensures
            r == self.cached_config.logical_address.code(),
    {
        self.cached_config.logical_address.to_primitive()
    }

    /// Whether the television is woken with the system.
    pub fn wake_tv(&self) -> (r: bool)
        ensures
            r == self.cached_config.wake_tv,
    {
        self.cached_config.wake_tv
    }

    /// Whether the television is put to standby with the system.
    pub fn suspend_tv(&self) -> (r: bool)
        ensures
            r == self.cached_config.suspend_tv,
    {
        self.cached_config.suspend_tv
    }

    /// Whether it is announced that the device is no longer active when the system goes to sleep.
    pub fn inactive_source_on_suspend(&self) -> (r: bool)
        ensures
            r == self.cached_config.inactive_source_on_suspend,
    {
        self.cached_config.inactive_source_on_suspend
    }

    /// Whether the system goes to sleep when a device is told to.
    pub fn allow_standby(&self) -> (r: bool)
        ensures
            r == self.cached_config.allow_standby,
    {
        self.cached_config.allow_standby
    }

    /// Whether buttons are turned into keys.
    pub fn uinput(&self) -> (r: bool)
        ensures
            r == self.cached_config.uinput,
    {
        self.cached_config.uinput
    }

    /// Whether it is asked who is the active source on start and wake.
    pub fn request_active_source(&self) -> (r: bool)
        ensures
            r == self.cached_config.request_active_source,
    {
        self.cached_config.request_active_source
    }

    /// The mappings: the bytes of a button and the number of a key, once for each button that stands
    /// for one.
    pub fn mappings(&self) -> (r: Vec<(Vec<u8>, u16)>)
        ensures
            self.cached_config.mappings.lists_all(),
            forall|c: UiCommand| #[trigger]
                self.cached_config.mappings@.dom().contains(c) ==> exists|i: int|
                    0 <= i < r@.len() && (#[trigger] r@[i]).0@ == c.encoded() && r@[i].1
                        == self.cached_config.mappings@[c]@,
            forall|i: int| 0 <= i < r@.len() ==> #[trigger] is_mapping(
                self.cached_config.mappings@,
                r@[i].0@,
                r@[i].1,
            ),
            r@.len() == self.cached_config.mappings.count(),
            forall|i: int| #![trigger r@[i]]
                0 <= i < r@.len() ==> r@[i].0@ == self.cached_config.mappings.entry(i).0.encoded()
                    && r@[i].1 == self.cached_config.mappings.entry(i).1@,
    {
        let mappings = &self.cached_config.mappings;
        let n: usize = mappings.len();
        let mut out: Vec<(Vec<u8>, u16)> = Vec::new();
        let mut i: usize = 0;
        while i < n
            invariant
                i <= n,
                n == mappings.count(),
                mappings.lists_all(),
                out@.len() == i,
                forall|k: int| #![trigger out@[k]]
                    0 <= k < i ==> out@[k].0@ == mappings.entry(k).0.encoded() && out@[k].1
                        == mappings.entry(k).1@,
            decreases n - i,
        {
            let (command, key) = mappings.get_entry(i);
            let mut bytes: Vec<u8> = Vec::new();
            command.to_bytes(&mut bytes);
            assert(bytes@ =~= command.encoded());
            out.push((bytes, key.code()));
            i += 1;
        }
        proof {
            assert forall|c: UiCommand| #[trigger] mappings@.dom().contains(c) implies exists|
                i: int,
            |
                0 <= i < out@.len() && (#[trigger] out@[i]).0@ == c.encoded() && out@[i].1
                    == mappings@[c]@ by {
                let k = choose|k: int|
                    0 <= k < mappings.count() && (#[trigger] mappings.entry(k)).0 == c;
                assert(out@[k].0@ == c.encoded());
            }
            assert forall|i: int| 0 <= i < out@.len() implies #[trigger] is_mapping(
                mappings@,
                out@[i].0@,
                out@[i].1,
            ) by {
                let c = mappings.entry(i).0;
                assert(mappings@.dom().contains(c));
                assert(out@[i].0@ == c.encoded());
            }
        }
        out
    }
}

/// The opcodes of messages that are handled, by the task of a device or by someone registered.
pub open spec fn is_handled(system: System, opcode: u8) -> bool {
    ||| system.message_handlers@.dom().contains(opcode)
    ||| opcode == Opcode::GiveDevicePowerStatus.code()
    ||| opcode == Opcode::UserControlPressed.code()
    ||| opcode == Opcode::UserControlReleased.code()
    ||| opcode == Opcode::SetStreamPath.code()
    ||| opcode == Opcode::Standby.code()
    ||| opcode == Opcode::RoutingChange.code()
    ||| opcode == Opcode::RequestActiveSource.code()
    ||| opcode == Opcode::FeatureAbort.code()
    ||| opcode == Opcode::ActiveSource.code()
}

fn is_static(handlers: &Vec<Opcode>, opcode: u8) -> (r: bool)
    ensures
        r == exists|i: int| 0 <= i < handlers@.len() && (#[trigger] handlers@[i]).code() == opcode,
{
    let mut i: usize = 0;
    while i < handlers.len()
        invariant
            i <= handlers@.len(),
            forall|k: int| 0 <= k < i ==> (#[trigger] handlers@[k]).code() != opcode,
        decreases handlers@.len() - i,
    {
        if handlers[i].to_primitive() == opcode {
            assert(handlers@[i as int].code() == opcode);
            return true;
        }
        i += 1;
    }
    false
}

/// The opcodes of messages that are handled, in order.
pub fn handled_messages(system: &System) -> (r: Vec<u8>)
    ensures
        forall|opcode: u8| r@.contains(opcode) <==> #[trigger] is_handled(*system, opcode),
        forall|i: int, j: int| 0 <= i < j < r@.len() ==> r@[i] < r@[j],
{
    let fixed = static_handlers();
    let ghost list = fixed@;
    let mut out: Vec<u8> = Vec::new();
    let mut code: u16 = 0;
    while code < 256
        invariant
            code <= 256,
            list == fixed@,
            list == seq![
                Opcode::GiveDevicePowerStatus,
                Opcode::UserControlPressed,
                Opcode::UserControlReleased,
                Opcode::SetStreamPath,
                Opcode::Standby,
                Opcode::RoutingChange,
                Opcode::RequestActiveSource,
                Opcode::FeatureAbort,
                Opcode::ActiveSource,
            ],
            forall|i: int| 0 <= i < out@.len() ==> out@[i] < code && is_handled(*system, out@[i]),
            forall|opcode: u8|
                opcode < code && #[trigger] is_handled(*system, opcode) ==> out@.contains(opcode),
            forall|i: int, j: int| 0 <= i < j < out@.len() ==> out@[i] < out@[j],
        decreases 256 - code,
    {
        let opcode: u8 = code as u8;
        let ghost was = out@;
        let by_task = is_static(&fixed, opcode);
        proof {
            assert(list[0] == Opcode::GiveDevicePowerStatus && list[1]
                == Opcode::UserControlPressed && list[2] == Opcode::UserControlReleased && list[3]
                == Opcode::SetStreamPath && list[4] == Opcode::Standby && list[5]
                == Opcode::RoutingChange && list[6] == Opcode::RequestActiveSource && list[7]
                == Opcode::FeatureAbort && list[8] == Opcode::ActiveSource);
        }
        if by_task || system.has_message_handler(opcode) {
            out.push(opcode);
            assert(out@[was.len() as int] == opcode);
        }
        proof {
            assert forall|o: u8| o < code + 1 && #[trigger] is_handled(*system, o) implies
                out@.contains(o) by {
                if o < code {
                    assert(was.contains(o));
                    let k = choose|k: int| 0 <= k < was.len() && was[k] == o;
                    assert(out@[k] == o);
                }
            }
        }
        code += 1;
    }
    out
}

/// What a call about a button asks for.
pub enum ButtonPlan {
    /// Nothing: the button is held down already.
    Nothing,
    /// Hold down a button for a device, once the one that is held down for it, if any, is released.
    Hold { release: bool, log_addr: LogicalAddress, key: UiCommand },
    /// Release the button that is held down.
    Release,
    /// Tell a device that a button is released, although none is held down.
    SendRelease(LogicalAddress),
    /// Press and release a button, once the one that is held down, if any, is released.
    Once { release: bool, log_addr: LogicalAddress, key: UiCommand },
}

/// A device as it is offered on the message bus.
pub struct CecDevice {
    /// The path of the device in the file system.
    pub path: String,
    /// The path of the device on the message bus.
    pub dbus_path: String,
    /// The buttons that are held down, by the device that they are held down for.
    pub key_repeat: HashMap<u8, UiCommand>,
}

/// The numbers of logical addresses.
pub open spec fn address_codes(addresses: Seq<LogicalAddress>) -> Seq<u8> {
    addresses.map_values(|a: LogicalAddress| a.code())
}

/// The device and the button that a call names, or what is wrong with them.
pub open spec fn named_button(target: u8, button: Seq<u8>) -> Result<
    (LogicalAddress, UiCommand),
    ErrorView,
> {
    match decoded_code::<LogicalAddress>(target) {
        Err(e) => Err(e),
        Ok(log_addr) => match UiCommand::decoded(button) {
            Err(e) => Err(e),
            Ok(key) => Ok((log_addr, key)),
        },
    }
}

/// The device that a call about sound is for, or what is wrong with it.
pub open spec fn audio_device(cached: Properties, target: u8) -> Result<LogicalAddress, ErrorView> {
    decoded_code::<LogicalAddress>(
        if target == CURRENT_AUDIO_LOG_ADDR {
            cached.audio_log_addr
        } else {
            target
        },
    )
}

/// What a call to press a button for the sound asks for.
pub open spec fn pressed_for_audio(cached: Properties, target: u8, key: UiCommand) -> Result<
    ButtonPlan,
    ErrorView,
> {
    match audio_device(cached, target) {
        Ok(log_addr) => Ok(ButtonPlan::Once { release: false, log_addr, key }),
        Err(e) => Err(e),
    }
}

/// What a call to turn the sound up asks for.
pub open spec fn made_louder(cached: Properties, target: u8) -> Result<ButtonPlan, ErrorView> {
    pressed_for_audio(cached, target, UiCommand::VolumeUp)
}

/// What a call to turn the sound down asks for.
pub open spec fn made_quieter(cached: Properties, target: u8) -> Result<ButtonPlan, ErrorView> {
    pressed_for_audio(cached, target, UiCommand::VolumeDown)
}

/// What a call to turn the sound off, or on again, asks for.
pub open spec fn made_silent(cached: Properties, target: u8) -> Result<ButtonPlan, ErrorView> {
    pressed_for_audio(cached, target, UiCommand::Mute)
}

/// The volume and whether the sound is off, by a message that may tell these.
pub open spec fn audio_status(message: MessageData) -> Result<(u8, bool), ErrorView> {
    match message {
        MessageData::Valid(Message::ReportAudioStatus { status }) => Ok(
            ((status@ % 128) as u8, status@ >= 128),
        ),
        _ => Err(ErrorView::InvalidData),
    }
}

/// The address that a number stands for, if it stands for one.
pub open spec fn named_address(phys_addr: i32) -> Option<PhysicalAddress> {
    if 0 <= phys_addr <= 0xffff {
        Some(PhysicalAddress(phys_addr as u16))
    } else {
        None
    }
}

/// The message, the device, the reply and the wait that a call names, or what is wrong with them.
pub open spec fn named_exchange(raw_message: Seq<u8>, target: u8, opcode: u8, timeout: u16) -> Result<
    (Message, LogicalAddress, Opcode, Timeout),
    ErrorView,
> {
    match named_message(raw_message, target) {
        Err(e) => Err(e),
        Ok((message, log_addr)) => match decoded_code::<Opcode>(opcode) {
            Err(e) => Err(e),
            Ok(opcode) => Ok((message, log_addr, opcode, Timeout { ms: timeout as u32 })),
        },
    }
}

/// What a call to hold down a button asks for, and what is held down after it until the button is.
pub open spec fn pressing(
    held: Map<u8, UiCommand>,
    target: u8,
    button: Result<(LogicalAddress, UiCommand), ErrorView>,
) -> (Result<ButtonPlan, ErrorView>, Map<u8, UiCommand>) {
    match button {
        Err(e) => (Err(e), held),
        Ok((log_addr, key)) => if held.dom().contains(target) && held[target] == key {
            (Ok(ButtonPlan::Nothing), held)
        } else {
            (
                Ok(ButtonPlan::Hold { release: held.dom().contains(target), log_addr, key }),
                held.remove(target),
            )
        },
    }
}

/// What a call to release a button asks for, and what is held down after it.
pub open spec fn releasing(held: Map<u8, UiCommand>, target: u8) -> (
    Result<ButtonPlan, ErrorView>,
    Map<u8, UiCommand>,
) {
    (
        if held.dom().contains(target) {
            Ok(ButtonPlan::Release)
        } else {
            match decoded_code::<LogicalAddress>(target) {
                Ok(log_addr) => Ok(ButtonPlan::SendRelease(log_addr)),
                Err(e) => Err(e),
            }
        },
        held.remove(target),
    )
}

/// What a call to press and release a button asks for, and what is held down after it.
pub open spec fn pressing_once(
    held: Map<u8, UiCommand>,
    target: u8,
    button: Result<(LogicalAddress, UiCommand), ErrorView>,
) -> (Result<ButtonPlan, ErrorView>, Map<u8, UiCommand>) {
    match button {
        Err(e) => (Err(e), held),
        Ok((log_addr, key)) => (
            Ok(
                if held.dom().contains(target) && held[target] == key {
                    ButtonPlan::Release
                } else {
                    ButtonPlan::Once { release: held.dom().contains(target), log_addr, key }
                },
            ),
            held.remove(target),
        ),
    }
}

fn read_button(target: u8, button: &[u8]) -> (r: Result<(LogicalAddress, UiCommand), CecError>)
    ensures
        outcome(r) == named_button(target, button@),
{
    match LogicalAddress::try_from_primitive(target) {
        Err(e) => Err(e),
        Ok(log_addr) => match UiCommand::try_from_bytes(button) {
            Err(e) => Err(e),
            Ok(key) => Ok((log_addr, key)),
        },
    }
}

impl CecDevice {
    /// Offer a device that has been opened, by its path and what it says of itself. What it does
    /// not say is taken to be unset. There is no offering a device that has no path on the bus.
    pub fn open(
        path: &str,
        phys_addr: Result<PhysicalAddress, CecError>,
        log_addrs: Result<Vec<LogicalAddress>, CecError>,
        vendor_id: Result<Option<VendorId>, CecError>,
    ) -> (r: Option<(CecDevice, Properties)>)
        ensures
            match r {
                Some((device, cached)) => {
                    &&& is_object_path(bus_path(path@))
                    &&& device.path@ == path@
                    &&& device.dbus_path@ == bus_path(path@)
                    &&& device.key_repeat@ == Map::<u8, UiCommand>::empty()
                    &&& cached.phys_addr == (match phys_addr {
                        Ok(a) => a.0,
                        Err(_) => 0xffff,
                    })
                    &&& cached.log_addrs@ == (match log_addrs {
                        Ok(list) => address_codes(list@),
                        Err(_) => Seq::empty(),
                    })
                    &&& cached.vendor_id == (match vendor_id {
                        Ok(v) => vendor_number(v),
                        Err(_) => -1i32,
                    })
                    &&& !cached.active
                    &&& cached.audio_log_addr == LogicalAddress::Tv.code()
                },
                None => !is_object_path(bus_path(path@)),
            },
            is_plain_device(path@) ==> (r matches Some((device, _)) && device.dbus_path@
                == plain_path(path@)),
    {
        let dbus_path = match device_path(path) {
            Some(p) => p,
            None => return None,
        };
        let mut codes: Vec<u8> = Vec::new();
        if let Ok(list) = &log_addrs {
            let mut i: usize = 0;
            while i < list.len()
                invariant
                    i <= list@.len(),
                    codes@ == address_codes(list@.take(i as int)),
                decreases list@.len() - i,
            {
                codes.push(list[i].to_primitive());
                i += 1;
                assert(codes@ =~= address_codes(list@.take(i as int)));
            }
            assert(list@.take(i as int) =~= list@);
        }
        let cached = Properties {
            phys_addr: match phys_addr {
                Ok(a) => a.0,
                Err(_) => 0xffff,
            },
            vendor_id: match vendor_id {
                Ok(Some(v)) => v.to_sys() as i32,
                _ => -1,
            },
            log_addrs: codes,
            active: false,
            audio_log_addr: LogicalAddress::Tv.to_primitive(),
        };
        let device = CecDevice { path: path.to_owned(), dbus_path, key_repeat: HashMap::new() };
        Some((device, cached))
    }

    /// The path of the device on the message bus.
    pub fn dbus_path(&self) -> (r: &str)
        ensures
            r@ == self.dbus_path@,
    {
        self.dbus_path.as_str()
    }

    /// Hold down a button for a device. Nothing is held down for it until the button is, as
    /// [`CecDevice::hold`] records.
    pub fn press_user_control(&mut self, button: &[u8], target: u8) -> (r: Result<
        ButtonPlan,
        CecError,
    >)
        ensures
            final(self).path == old(self).path,
            final(self).dbus_path == old(self).dbus_path,
            (outcome(r), final(self).key_repeat@) == pressing(
                old(self).key_repeat@,
                target,
                named_button(target, button@),
            ),
    {
        broadcast use vstd::std_specs::hash::group_hash_axioms;

        let (log_addr, key) = match read_button(target, button) {
            Err(e) => return Err(e),
            Ok(named) => named,
        };
        let held: Option<UiCommand> = match self.key_repeat.get(&target) {
            Some(key) => Some(*key),
            None => None,
        };
        match held {
            Some(current) if current == key => Ok(ButtonPlan::Nothing),
            held => {
                self.key_repeat.remove(&target);
                assert(self.key_repeat@ =~= old(self).key_repeat@.remove(target));
                Ok(ButtonPlan::Hold { release: held.is_some(), log_addr, key })
            },
        }
    }

    /// Take note that a button is held down for a device.
    pub fn hold(&mut self, target: u8, key: UiCommand)
        ensures
            final(self).path == old(self).path,
            final(self).dbus_path == old(self).dbus_path,
            final(self).key_repeat@ == old(self).key_repeat@.insert(target, key),
    {
        broadcast use vstd::std_specs::hash::group_hash_axioms;

        self.key_repeat.insert(target, key);
    }

    /// Release the button that is held down for a device.
    pub fn release_user_control(&mut self, target: u8) -> (r: Result<ButtonPlan, CecError>)
        ensures
            final(self).path == old(self).path,
            final(self).dbus_path == old(self).dbus_path,
            (outcome(r), final(self).key_repeat@) == releasing(old(self).key_repeat@, target),
    {
        broadcast use vstd::std_specs::hash::group_hash_axioms;

        match self.key_repeat.remove(&target) {
            Some(_) => Ok(ButtonPlan::Release),
            None => {
                assert(self.key_repeat@ =~= old(self).key_repeat@.remove(target));
                match LogicalAddress::try_from_primitive(target) {
                    Ok(log_addr) => Ok(ButtonPlan::SendRelease(log_addr)),
                    Err(e) => Err(e),
                }
            },
        }
    }

    /// Press a button for a device and release it. Where it is held down, it is only released.
    pub fn press_once_user_control(&mut self, button: &[u8], target: u8) -> (r: Result<
        ButtonPlan,
        CecError,
    >)
        ensures
            final(self).path == old(self).path,
            final(self).dbus_path == old(self).dbus_path,
            (outcome(r), final(self).key_repeat@) == pressing_once(
                old(self).key_repeat@,
                target,
                named_button(target, button@),
            ),
    {
        broadcast use vstd::std_specs::hash::group_hash_axioms;

        let (log_addr, key) = match read_button(target, button) {
            Err(e) => return Err(e),
            Ok(named) => named,
        };
        match self.key_repeat.remove(&target) {
            Some(current) if current == key => Ok(ButtonPlan::Release),
            held => {
                assert(held is None ==> self.key_repeat@ =~= old(self).key_repeat@.remove(target));
                Ok(ButtonPlan::Once { release: held.is_some(), log_addr, key })
            },
        }
    }

    /// The device that a call about sound is for.
    pub fn audio_target(cached: &Properties, target: u8) -> (r: Result<LogicalAddress, CecError>)
        ensures
            outcome(r) == audio_device(*cached, target),
    {
        LogicalAddress::try_from_primitive(
            if target == CURRENT_AUDIO_LOG_ADDR {
                cached.audio_log_addr
            } else {
                target
            },
        )
    }

    fn audio_button(cached: &Properties, target: u8, key: UiCommand) -> (r: Result<
        ButtonPlan,
        CecError,
    >)
        ensures
            outcome(r) == pressed_for_audio(*cached, target, key),
    {
        match CecDevice::audio_target(cached, target) {
            Ok(log_addr) => Ok(ButtonPlan::Once { release: false, log_addr, key }),
            Err(e) => Err(e),
        }
    }

    /// Turn the sound up.
    pub fn volume_up(cached: &Properties, target: u8) -> (r: Result<ButtonPlan, CecError>)
        ensures
            outcome(r) == made_louder(*cached, target),
    {
        CecDevice::audio_button(cached, target, UiCommand::VolumeUp)
    }

    /// Turn the sound down.
    pub fn volume_down(cached: &Properties, target: u8) -> (r: Result<ButtonPlan, CecError>)
        ensures
            outcome(r) == made_quieter(*cached, target),
    {
        CecDevice::audio_button(cached, target, UiCommand::VolumeDown)
    }

    /// Turn the sound off, or on again.
    pub fn mute(cached: &Properties, target: u8) -> (r: Result<ButtonPlan, CecError>)
        ensures
            outcome(r) == made_silent(*cached, target),
    {
        CecDevice::audio_button(cached, target, UiCommand::Mute)
    }

    /// The volume and whether the sound is off, by a reply to the question for those.
    pub fn read_audio_status(reply: &Envelope) -> (r: Result<(u8, bool), CecError>)
        ensures
            outcome(r) == audio_status(reply.message),
    {
        match &reply.message {
            MessageData::Valid(Message::ReportAudioStatus { status }) => Ok(
                (status.volume(), status.mute()),
            ),
            _ => Err(CecError::InvalidData),
        }
    }

    /// The address that a call to switch the television names. Any number that is no address stands
    /// for the address of the device itself.
    pub fn set_active_source(phys_addr: i32) -> (r: Option<PhysicalAddress>)
        ensures
            r == named_address(phys_addr),
    {
        if 0 <= phys_addr && phys_addr <= 0xffff {
            Some(PhysicalAddress(phys_addr as u16))
        } else {
            None
        }
    }

    /// The device that a call names.
    pub fn read_target(target: u8) -> (r: Result<LogicalAddress, CecError>)
        ensures
            outcome(r) == decoded_code::<LogicalAddress>(target),
    {
        LogicalAddress::try_from_primitive(target)
    }

    /// The message that a call sends, and the device that it is for.
    pub fn send_raw_message(raw_message: &[u8], target: u8) -> (r: Result<
        (Message, LogicalAddress),
        CecError,
    >)
        ensures
            outcome(r) == named_message(raw_message@, target),
    {
        match LogicalAddress::try_from_primitive(target) {
            Err(e) => Err(e),
            Ok(log_addr) => match Message::try_from_bytes(raw_message) {
                Err(e) => Err(e),
                Ok(message) => Ok((message, log_addr)),
            },
        }
    }

    /// The message that a call sends, the device that it is for, the reply that is waited for and
    /// how long.
    pub fn send_receive_raw_message(
        raw_message: &[u8],
        target: u8,
        opcode: u8,
        timeout: u16,
    ) -> (r: Result<(Message, LogicalAddress, Opcode, Timeout), CecError>)
        ensures
            outcome(r) == named_exchange(raw_message@, target, opcode, timeout),
    {
        match CecDevice::send_raw_message(raw_message, target) {
            Err(e) => Err(e),
            Ok((message, log_addr)) => match Opcode::try_from_primitive(opcode) {
                Err(e) => Err(e),
                Ok(opcode) => Ok((message, log_addr, opcode, Timeout::from_ms(timeout as u32))),
            },
        }
    }
}

/// The message and the device that a call names, or what is wrong with them.
pub open spec fn named_message(raw_message: Seq<u8>, target: u8) -> Result<
    (Message, LogicalAddress),
    ErrorView,
> {
    match decoded_code::<LogicalAddress>(target) {
        Err(e) => Err(e),
        Ok(log_addr) => match Message::decoded(raw_message) {
            Err(e) => Err(e),
            Ok(message) => Ok((message, log_addr)),
        },
    }
}

/// Those who watch the configuration are told of a property just when it has changed.
pub proof fn changes_are_told(a: ConfigView, b: ConfigView, property: ConfigProperty)
    ensures
        differing(all_properties(), a, b).contains(property) == differs(property, a, b),
{
    let list = all_properties();
    only_changes_are_told(list, a, b, property);
    assert(list[0] == ConfigProperty::OsdName && list[1] == ConfigProperty::VendorId && list[2]
        == ConfigProperty::LogicalAddress && list[3] == ConfigProperty::Mappings && list[4]
        == ConfigProperty::WakeTv && list[5] == ConfigProperty::SuspendTv && list[6]
        == ConfigProperty::InactiveSourceOnSuspend && list[7] == ConfigProperty::AllowStandby
        && list[8] == ConfigProperty::Uinput && list[9] == ConfigProperty::RequestActiveSource);
    assert(list.contains(property));
}

proof fn only_changes_are_told(
    list: Seq<ConfigProperty>,
    a: ConfigView,
    b: ConfigView,
    property: ConfigProperty,
)
    ensures
        differing(list, a, b).contains(property) == (list.contains(property) && differs(
            property,
            a,
            b,
        )),
    decreases list.len(),
{
    if list.len() > 0 {
        let rest = list.drop_last();
        only_changes_are_told(rest, a, b, property);
        assert(list =~= rest.push(list.last()));
        assert(list.contains(property) == (rest.contains(property) || list.last() == property)) by {
            if rest.contains(property) {
                let k = choose|k: int| 0 <= k < rest.len() && rest[k] == property;
                assert(list[k] == property);
            }
            if list.contains(property) {
                let k = choose|k: int| 0 <= k < list.len() && list[k] == property;
                if k < rest.len() {
                    assert(rest[k] == property);
                }
            }
        }
        let told = differing(rest, a, b);
        let now = differing(list, a, b);
        if differs(list.last(), a, b) {
            assert(now[told.len() as int] == list.last());
            if told.contains(property) {
                let k = choose|k: int| 0 <= k < told.len() && told[k] == property;
                assert(now[k] == property);
            }
            if now.contains(property) {
                let k = choose|k: int| 0 <= k < now.len() && now[k] == property;
                if k < told.len() {
                    assert(told[k] == property);
                }
            }
        }
    }
}

/// To show a configuration a second time tells nobody anything.
pub proof fn showing_twice_tells_once(config: ConfigView)
    ensures
        shown(shown(config)) == shown(config),
        differing(all_properties(), shown(config), shown(config)) == Seq::<ConfigProperty>::empty(),
{
    nothing_changes(all_properties(), shown(config));
}

proof fn nothing_changes(list: Seq<ConfigProperty>, config: ConfigView)
    ensures
        differing(list, config, config) == Seq::<ConfigProperty>::empty(),
    decreases list.len(),
{
    if list.len() > 0 {
        nothing_changes(list.drop_last(), config);
    }
}

/// The names of the failures of this library on the message bus.
pub proof fn failures_have_names(
    expected: crate::error::RangeView,
    got: usize,
    quantity: Seq<char>,
    ty: Seq<char>,
    value: Seq<char>,
    errno: i32,
)
    ensures
        error_name(ErrorView::OutOfRange { expected, got, quantity })
            == "com.steampowered.CecDaemon1.Error.OutOfRange"@,
        error_name(ErrorView::InvalidValueForType { ty, value })
            == "com.steampowered.CecDaemon1.Error.InvalidValueForType"@,
        error_name(ErrorView::InvalidData) == "com.steampowered.CecDaemon1.Error.InvalidData"@,
        error_name(ErrorView::Timeout) == "com.steampowered.CecDaemon1.Error.Timeout"@,
        error_name(ErrorView::Abort) == "com.steampowered.CecDaemon1.Error.Abort"@,
        error_name(ErrorView::NoLogicalAddress)
            == "com.steampowered.CecDaemon1.Error.NoLogicalAddress"@,
        error_name(ErrorView::Disconnected) == "com.steampowered.CecDaemon1.Error.Disconnected"@,
        error_name(ErrorView::Unsupported) == "com.steampowered.CecDaemon1.Error.Unsupported"@,
        error_name(ErrorView::SystemError(errno))
            == "com.steampowered.CecDaemon1.Error.SystemError"@,
        error_name(ErrorView::UnknownError(value)) == "com.steampowered.CecDaemon1.Error.Unknown"@,
        error_name(ErrorView::TxError(TxError::ArbLost))
            == "com.steampowered.CecDaemon1.TxError.ArbLost"@,
        error_name(ErrorView::TxError(TxError::Nack))
            == "com.steampowered.CecDaemon1.TxError.Nack"@,
        error_name(ErrorView::TxError(TxError::LowDrive))
            == "com.steampowered.CecDaemon1.TxError.LowDrive"@,
        error_name(ErrorView::TxError(TxError::UnknownError))
            == "com.steampowered.CecDaemon1.TxError.Unknown"@,
        error_name(ErrorView::TxError(TxError::MaxRetries))
            == "com.steampowered.CecDaemon1.TxError.MaxRetries"@,
        error_name(ErrorView::TxError(TxError::Aborted))
            == "com.steampowered.CecDaemon1.TxError.Aborted"@,
        error_name(ErrorView::TxError(TxError::Timeout))
            == "com.steampowered.CecDaemon1.TxError.Timeout"@,
        error_name(ErrorView::RxError(RxError::Timeout))
            == "com.steampowered.CecDaemon1.RxError.Timeout"@,
        error_name(ErrorView::RxError(RxError::FeatureAbort))
            == "com.steampowered.CecDaemon1.RxError.FeatureAbort"@,
        error_name(ErrorView::RxError(RxError::Aborted))
            == "com.steampowered.CecDaemon1.RxError.Aborted"@,
{
}

/// Each property is told to have changed just where two configurations differ in what it shows.
pub proof fn properties_show_the_configuration(a: ConfigView, b: ConfigView)
    ensures
        ({
            let told = differing(all_properties(), a, b);
            &&& told.contains(ConfigProperty::OsdName) == (a.osd_name != b.osd_name)
            &&& told.contains(ConfigProperty::VendorId) == (a.vendor_id != b.vendor_id)
            &&& told.contains(ConfigProperty::LogicalAddress) == (a.logical_address
                != b.logical_address)
            &&& told.contains(ConfigProperty::Mappings) == (a.mappings != b.mappings)
            &&& told.contains(ConfigProperty::WakeTv) == (a.wake_tv != b.wake_tv)
            &&& told.contains(ConfigProperty::SuspendTv) == (a.suspend_tv != b.suspend_tv)
            &&& told.contains(ConfigProperty::InactiveSourceOnSuspend) == (
            a.inactive_source_on_suspend != b.inactive_source_on_suspend)
            &&& told.contains(ConfigProperty::AllowStandby) == (a.allow_standby != b.allow_standby)
            &&& told.contains(ConfigProperty::Uinput) == (a.uinput != b.uinput)
            &&& told.contains(ConfigProperty::RequestActiveSource) == (a.request_active_source
                != b.request_active_source)
        }),
{
    changes_are_told(a, b, ConfigProperty::OsdName);
    changes_are_told(a, b, ConfigProperty::VendorId);
    changes_are_told(a, b, ConfigProperty::LogicalAddress);
    changes_are_told(a, b, ConfigProperty::Mappings);
    changes_are_told(a, b, ConfigProperty::WakeTv);
    changes_are_told(a, b, ConfigProperty::SuspendTv);
    changes_are_told(a, b, ConfigProperty::InactiveSourceOnSuspend);
    changes_are_told(a, b, ConfigProperty::AllowStandby);
    changes_are_told(a, b, ConfigProperty::Uinput);
    changes_are_told(a, b, ConfigProperty::RequestActiveSource);
}

/// A configuration is shown as it is, but that no kind of logical address stands for that of a
/// player.
pub proof fn configurations_are_shown_as_they_are(config: ConfigView)
    ensures
        config.logical_address is Unregistered ==> shown(config).logical_address is Playback,
        !(config.logical_address is Unregistered) ==> shown(config) == config,
        shown(config).osd_name == config.osd_name,
        shown(config).vendor_id == config.vendor_id,
        shown(config).mappings == config.mappings,
        shown(config).wake_tv == config.wake_tv,
        shown(config).suspend_tv == config.suspend_tv,
        shown(config).inactive_source_on_suspend == config.inactive_source_on_suspend,
        shown(config).allow_standby == config.allow_standby,
        shown(config).uinput == config.uinput,
        shown(config).request_active_source == config.request_active_source,
{
}

/// The messages that a device answers by itself are handled, whoever is registered, and those that
/// someone is registered for. No others are.
pub proof fn handled_messages_have_numbers(system: System, opcode: u8)
    ensures
        is_handled(system, 0x8f) && is_handled(system, 0x44) && is_handled(system, 0x45),
        is_handled(system, 0x86) && is_handled(system, 0x36) && is_handled(system, 0x80),
        is_handled(system, 0x85) && is_handled(system, 0x00) && is_handled(system, 0x82),
        system.message_handlers@.dom().contains(opcode) ==> is_handled(system, opcode),
        is_handled(system, opcode) && !system.message_handlers@.dom().contains(opcode) ==> opcode
            == 0x8f || opcode == 0x44 || opcode == 0x45 || opcode == 0x86 || opcode == 0x36
            || opcode == 0x80 || opcode == 0x85 || opcode == 0x00 || opcode == 0x82,
{
}

/// A call names the device with a number below sixteen. A call about sound that names none goes to
/// the device that plays the sound.
pub proof fn calls_name_devices(
    cached: Properties,
    target: u8,
    button: Seq<u8>,
    raw_message: Seq<u8>,
    key: UiCommand,
)
    ensures
        target < 16 ==> (audio_device(cached, target) matches Ok(log_addr) && log_addr.code()
            == target),
        cached.audio_log_addr < 16 ==> (audio_device(cached, 0xff) matches Ok(log_addr)
            && log_addr.code() == cached.audio_log_addr),
        16 <= target < 255 ==> audio_device(cached, target) is Err,
        target >= 16 ==> named_button(target, button) is Err && named_message(raw_message, target)
            is Err,
        target < 16 ==> match UiCommand::decoded(button) {
            Ok(read) => named_button(target, button) matches Ok((log_addr, pressed))
                && log_addr.code() == target && pressed == read,
            Err(e) => named_button(target, button) == Err::<(LogicalAddress, UiCommand), ErrorView>(
                e,
            ),
        },
        target < 16 ==> match Message::decoded(raw_message) {
            Ok(read) => named_message(raw_message, target) matches Ok((message, log_addr))
                && log_addr.code() == target && message == read,
            Err(e) => named_message(raw_message, target) == Err::<
                (Message, LogicalAddress),
                ErrorView,
            >(e),
        },
        target < 16 ==> (pressed_for_audio(cached, target, key) matches Ok(
            ButtonPlan::Once { release, log_addr, key: pressed },
        ) && !release && log_addr.code() == target && pressed == key),
{
    LogicalAddress::one_to_one();
}

/// The path of a device with a plain name on the message bus is below that of the devices of the
/// daemon, and is its name with a capital letter.
pub proof fn plain_devices_have_plain_paths(path: Seq<char>)
    requires
        is_plain_device(path),
    ensures
        plain_path(path) == "/com/steampowered/CecDaemon1"@ + "/Devices/"@ + path.skip(5).update(
            0,
            (path[5] as u32 - 32) as char,
        ),
{
    assert(seq![(path[5] as u32 - 32) as char] + path.skip(6) =~= path.skip(5).update(
        0,
        (path[5] as u32 - 32) as char,
    ));
}

/// A button is held down for a device once. To press it again does nothing, to press another one
/// releases it first, and what is held down for other devices stays.
pub proof fn one_button_is_held_for_a_device(
    held: Map<u8, UiCommand>,
    target: u8,
    log_addr: LogicalAddress,
    key: UiCommand,
    e: ErrorView,
    other: u8,
)
    requires
        other != target,
    ensures
        ({
            let (plan, left) = pressing(held, target, Ok((log_addr, key)));
            let same = held.dom().contains(target) && held[target] == key;
            &&& same ==> plan == Ok::<ButtonPlan, ErrorView>(ButtonPlan::Nothing) && left == held
            &&& !same ==> {
                &&& plan matches Ok(ButtonPlan::Hold { release, log_addr: to, key: pressed })
                    && release == held.dom().contains(target) && to == log_addr && pressed == key
                &&& !left.dom().contains(target)
                &&& pressing(left.insert(target, key), target, Ok((log_addr, key))).0 == Ok::<
                    ButtonPlan,
                    ErrorView,
                >(ButtonPlan::Nothing)
            }
            &&& left.dom().contains(other) == held.dom().contains(other)
            &&& held.dom().contains(other) ==> left[other] == held[other]
            &&& pressing(held, target, Err(e)) == (Err::<ButtonPlan, ErrorView>(e), held)
        }),
{
}

/// To release a button releases the one that is held down for the device, and tells the device so
/// where none is. After that none is held down for it.
pub proof fn a_release_ends_the_hold(held: Map<u8, UiCommand>, target: u8, other: u8)
    requires
        other != target,
    ensures
        ({
            let (plan, left) = releasing(held, target);
            &&& held.dom().contains(target) ==> plan == Ok::<ButtonPlan, ErrorView>(
                ButtonPlan::Release,
            )
            &&& !held.dom().contains(target) && target < 16 ==> (plan matches Ok(
                ButtonPlan::SendRelease(to),
            ) && to.code() == target)
            &&& !held.dom().contains(target) && target >= 16 ==> plan is Err
            &&& !left.dom().contains(target)
            &&& left.dom().contains(other) == held.dom().contains(other)
            &&& held.dom().contains(other) ==> left[other] == held[other]
        }),
{
    LogicalAddress::one_to_one();
}

/// To press a button once releases it where it is held down, and else presses and releases it, once
/// another one that is held down is released. After that none is held down for the device.
pub proof fn a_press_ends_the_hold(
    held: Map<u8, UiCommand>,
    target: u8,
    log_addr: LogicalAddress,
    key: UiCommand,
    e: ErrorView,
    other: u8,
)
    requires
        other != target,
    ensures
        ({
            let (plan, left) = pressing_once(held, target, Ok((log_addr, key)));
            let same = held.dom().contains(target) && held[target] == key;
            &&& same ==> plan == Ok::<ButtonPlan, ErrorView>(ButtonPlan::Release)
            &&& !same ==> (plan matches Ok(ButtonPlan::Once { release, log_addr: to, key: pressed })
                && release == held.dom().contains(target) && to == log_addr && pressed == key)
            &&& !left.dom().contains(target)
            &&& left.dom().contains(other) == held.dom().contains(other)
            &&& held.dom().contains(other) ==> left[other] == held[other]
            &&& pressing_once(held, target, Err(e)) == (Err::<ButtonPlan, ErrorView>(e), held)
        }),
{
}

/// Calls about the sound press the buttons 0x41, 0x42 and 0x43 once, for the device that they name.
pub proof fn sound_is_changed_by_buttons(cached: Properties, target: u8)
    requires
        target < 16,
    ensures
        made_louder(cached, target) matches Ok(ButtonPlan::Once { release, log_addr, key })
            && !release && log_addr.code() == target && key.code() == 0x41,
        made_quieter(cached, target) matches Ok(ButtonPlan::Once { release, log_addr, key })
            && !release && log_addr.code() == target && key.code() == 0x42,
        made_silent(cached, target) matches Ok(ButtonPlan::Once { release, log_addr, key })
            && !release && log_addr.code() == target && key.code() == 0x43,
{
    calls_name_devices(cached, target, Seq::empty(), Seq::empty(), UiCommand::VolumeUp);
    calls_name_devices(cached, target, Seq::empty(), Seq::empty(), UiCommand::VolumeDown);
    calls_name_devices(cached, target, Seq::empty(), Seq::empty(), UiCommand::Mute);
}

/// The byte of an audio status is the volume, with the highest bit set where the sound is off. No
/// other message tells it.
pub proof fn audio_status_is_a_byte(message: MessageData)
    ensures
        message matches MessageData::Valid(Message::ReportAudioStatus { status }) ==> (audio_status(
            message,
        ) matches Ok((volume, mute)) && volume < 128 && status@ == volume + (if mute {
            128int
        } else {
            0
        })),
        !(message matches MessageData::Valid(Message::ReportAudioStatus { .. })) ==> audio_status(
            message,
        ) == Err::<(u8, bool), ErrorView>(ErrorView::InvalidData),
{
}

/// A number of two bytes stands for the address that it is, and any other one for none.
pub proof fn numbers_stand_for_addresses(address: PhysicalAddress, n: i32)
    ensures
        named_address(address.0 as i32) == Some(address),
        n < 0 || n > 0xffff ==> named_address(n) is None,
{
}

/// A call that waits for a reply sends what one without sends, and names the opcode of the reply by
/// its number and the wait in milliseconds.
pub proof fn exchanges_name_their_reply(
    raw_message: Seq<u8>,
    target: u8,
    opcode: u8,
    timeout: u16,
)
    ensures
        match named_message(raw_message, target) {
            Err(e) => named_exchange(raw_message, target, opcode, timeout) == Err::<
                (Message, LogicalAddress, Opcode, Timeout),
                ErrorView,
            >(e),
            Ok((message, log_addr)) => match named_exchange(raw_message, target, opcode, timeout) {
                Ok((sent, to, reply, wait)) => sent == message && to == log_addr && reply.code()
                    == opcode && wait.ms == timeout,
                Err(_) => Opcode::with_code(opcode) is None,
            },
        },
{
    Opcode::one_to_one();
}

} // verus!
