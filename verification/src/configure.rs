//! The configuration of a device: what is asked of it, in which order, and what comes of that.

use vstd::prelude::*;

use crate::address::{LogicalAddressType, PhysicalAddress, VendorId};
use crate::device::ConnectorInfo;
use crate::drm::{address_in_extensions, DrmConnector};
use crate::error::{Error, ErrorView};

verus! {

/// The physical address of the device is for this side to set.
pub const CEC_CAP_PHYS_ADDR: u32 = 0x01;

/// The logical addresses of the device are for this side to set.
pub const CEC_CAP_LOG_ADDRS: u32 = 0x02;

/// The device can transmit.
pub const CEC_CAP_TRANSMIT: u32 = 0x04;

/// The device knows its connector.
pub const CEC_CAP_CONNECTOR_INFO: u32 = 0x100;

/// The error number for a device that is busy.
pub const EBUSY: i32 = 16;

/// How often a busy device is asked to give up its logical addresses.
pub const CLEAR_TRIES: u32 = 5;

/// How long to wait for a busy device, in milliseconds.
pub const CLEAR_DELAY: u64 = 200;

/// What has to be done outside to configure a device, and in the end its connector.
pub enum ConfigureAction {
    ReadDriverName,
    ReadAdapterName,
    ReadCapabilities,
    /// Read what the kernel calls the connector that the device is known to have.
    DescribeConnector,
    /// Read what connector the device says it has.
    ReadConnectorInfo,
    EnableInitiator,
    /// Read the EDID behind the connector that the device is known to have.
    ReadEdid,
    /// Look for the one connector with a physical address.
    FindConnector,
    SetPhysicalAddress(PhysicalAddress),
    ReadPhysicalAddress,
    /// Look for the connector that the device says it has.
    LookUpConnector(ConnectorInfo, PhysicalAddress),
    ClearLogicalAddresses,
    /// Wait for some milliseconds.
    Sleep(u64),
    /// Set the name to advertise.
    SetOsdName(String),
    SetVendorId(Option<VendorId>),
    SetLogicalAddress(LogicalAddressType),
    EnableFollower,
    /// Nothing more: this is the connector of the device.
    Return(Result<Option<DrmConnector>, Error>),
}

/// What came of it.
pub enum ConfigureInput {
    Done,
    Capabilities(u32),
    Info(ConnectorInfo),
    Edid(Vec<u8>),
    Connector(Option<DrmConnector>),
    Address(PhysicalAddress),
    Failed(Error),
}

/// What is awaited.
#[derive(Debug, Copy, Clone, PartialEq, Eq, Structural)]
pub enum ConfigureStage {
    DriverName,
    AdapterName,
    Capabilities,
    Info,
    Initiator,
    Edid,
    Search,
    SetAddress,
    ReadAddress,
    LookUp,
    Clear,
    Sleep,
    Name,
    Vendor,
    LogicalAddress,
    Follower,
    Over,
}

/// The settings that are made.
#[derive(Debug, Copy, Clone, PartialEq, Eq)]
pub struct Settings {
    pub vendor_id: Option<VendorId>,
    pub logical_address: LogicalAddressType,
    pub physical_address: Option<PhysicalAddress>,
}

/// The configuration of a device, while it goes on.
pub struct Configuration {
    pub stage: ConfigureStage,
    pub settings: Settings,
    /// The name to advertise, until it is set.
    pub osd_name: Option<String>,
    /// The connector that the device is known to have.
    pub connector: Option<DrmConnector>,
    pub caps: u32,
    pub info: ConnectorInfo,
    pub new_connector: Option<DrmConnector>,
    /// How often the device has been asked to give up its logical addresses.
    pub tries: u32,
}

impl Configuration {
    /// Whether an input can come of the last action.
    pub open spec fn awaits(self, input: ConfigureInput) -> bool {
        input is Failed || match self.stage {
            ConfigureStage::Capabilities => input is Capabilities,
            ConfigureStage::Info => input is Info,
            ConfigureStage::Edid => input is Edid,
            ConfigureStage::Search => input is Connector,
            ConfigureStage::ReadAddress => input is Address,
            ConfigureStage::LookUp => input is Connector,
            _ => input is Done,
        }
    }

    /// Whether the name has been set, or none has to be.
    pub open spec fn is_named(self) -> bool {
        match self.stage {
            ConfigureStage::Name | ConfigureStage::Vendor | ConfigureStage::LogicalAddress => true,
            ConfigureStage::Follower | ConfigureStage::Over => true,
            _ => false,
        }
    }

    /// What holds while the configuration goes on.
    pub open spec fn wf(self) -> bool {
        &&& self.stage != ConfigureStage::Over
        &&& self.stage == ConfigureStage::Edid ==> self.connector is Some
        &&& !self.is_named() ==> self.osd_name is Some
        &&& self.stage == ConfigureStage::Clear ==> 1 <= self.tries <= CLEAR_TRIES
        &&& self.stage == ConfigureStage::Sleep ==> 1 <= self.tries < CLEAR_TRIES
    }

    /// A bound on the number of actions that are still to come.
    pub open spec fn actions_left(self) -> nat {
        match self.stage {
            ConfigureStage::DriverName => 30,
            ConfigureStage::AdapterName => 29,
            ConfigureStage::Capabilities => 28,
            ConfigureStage::Info => 27,
            ConfigureStage::Initiator => 26,
            ConfigureStage::Edid | ConfigureStage::Search | ConfigureStage::ReadAddress => 25,
            ConfigureStage::SetAddress | ConfigureStage::LookUp => 24,
            ConfigureStage::Clear => (7 + 2 * (CLEAR_TRIES - self.tries)) as nat,
            ConfigureStage::Sleep => (6 + 2 * (CLEAR_TRIES - self.tries)) as nat,
            ConfigureStage::Name => 5,
            ConfigureStage::Vendor => 4,
            ConfigureStage::LogicalAddress => 3,
            ConfigureStage::Follower => 2,
            ConfigureStage::Over => 0,
        }
    }

    /// The same, awaiting something else.
    pub open spec fn at(self, stage: ConfigureStage) -> Configuration {
        Configuration { stage, ..self }
    }

    /// What follows once the physical address is settled: the logical addresses, where they are for
    /// this side to set, and else the end.
    pub open spec fn after_address(self) -> (Configuration, ConfigureAction) {
        if self.caps & CEC_CAP_LOG_ADDRS != 0 {
            (
                Configuration { stage: ConfigureStage::Clear, tries: 1, ..self },
                ConfigureAction::ClearLogicalAddresses,
            )
        } else {
            (self.at(ConfigureStage::Follower), ConfigureAction::EnableFollower)
        }
    }

    /// Where a configuration goes from a stage when all goes well, and what it does there. Left out
    /// are the stages in which an EDID was read.
    pub open spec fn stepped(self, input: ConfigureInput) -> (Configuration, ConfigureAction) {
        match self.stage {
            ConfigureStage::DriverName => (
                self.at(ConfigureStage::AdapterName),
                ConfigureAction::ReadAdapterName,
            ),
            ConfigureStage::AdapterName => (
                self.at(ConfigureStage::Capabilities),
                ConfigureAction::ReadCapabilities,
            ),
            ConfigureStage::Capabilities => {
                let knows = Configuration { caps: input->Capabilities_0, ..self };
                if self.connector is Some {
                    (knows.at(ConfigureStage::Info), ConfigureAction::DescribeConnector)
                } else if input->Capabilities_0 & CEC_CAP_CONNECTOR_INFO != 0 {
                    (knows.at(ConfigureStage::Info), ConfigureAction::ReadConnectorInfo)
                } else {
                    (
                        Configuration {
                            info: ConnectorInfo::NoConnector,
                            ..knows.at(ConfigureStage::Initiator)
                        },
                        ConfigureAction::EnableInitiator,
                    )
                }
            },
            ConfigureStage::Info => (
                Configuration { info: input->Info_0, ..self.at(ConfigureStage::Initiator) },
                ConfigureAction::EnableInitiator,
            ),
            ConfigureStage::Initiator => if self.caps & CEC_CAP_PHYS_ADDR != 0 {
                if self.connector is Some {
                    (self.at(ConfigureStage::Edid), ConfigureAction::ReadEdid)
                } else {
                    (self.at(ConfigureStage::Search), ConfigureAction::FindConnector)
                }
            } else if self.info is DrmConnector {
                (self.at(ConfigureStage::ReadAddress), ConfigureAction::ReadPhysicalAddress)
            } else {
                self.after_address()
            },
            ConfigureStage::Search => match input->Connector_0 {
                Some(connector) => (
                    Configuration {
                        new_connector: Some(connector),
                        ..self.at(ConfigureStage::SetAddress)
                    },
                    ConfigureAction::SetPhysicalAddress(connector.physical_address),
                ),
                None => match self.settings.physical_address {
                    Some(address) => (
                        self.at(ConfigureStage::SetAddress),
                        ConfigureAction::SetPhysicalAddress(address),
                    ),
                    None => self.after_address(),
                },
            },
            ConfigureStage::SetAddress => self.after_address(),
            ConfigureStage::ReadAddress => (
                self.at(ConfigureStage::LookUp),
                ConfigureAction::LookUpConnector(self.info, input->Address_0),
            ),
            ConfigureStage::LookUp => Configuration {
                new_connector: input->Connector_0,
                ..self
            }.after_address(),
            ConfigureStage::Clear => (
                Configuration { osd_name: None, ..self.at(ConfigureStage::Name) },
                ConfigureAction::SetOsdName(self.osd_name->Some_0),
            ),
            ConfigureStage::Sleep => (
                Configuration {
                    tries: (self.tries + 1) as u32,
                    ..self.at(ConfigureStage::Clear)
                },
                ConfigureAction::ClearLogicalAddresses,
            ),
            ConfigureStage::Name => (
                self.at(ConfigureStage::Vendor),
                ConfigureAction::SetVendorId(self.settings.vendor_id),
            ),
            ConfigureStage::Vendor => (
                self.at(ConfigureStage::LogicalAddress),
                ConfigureAction::SetLogicalAddress(self.settings.logical_address),
            ),
            ConfigureStage::LogicalAddress => (
                self.at(ConfigureStage::Follower),
                ConfigureAction::EnableFollower,
            ),
            ConfigureStage::Follower => (
                Configuration { new_connector: None, ..self.at(ConfigureStage::Over) },
                ConfigureAction::Return(Ok(self.new_connector)),
            ),
            _ => (self, ConfigureAction::Return(Ok(None))),
        }
    }

    /// Whether an input leads from one state to another, with an action.
    pub open spec fn moves(
        self,
        input: ConfigureInput,
        now: Configuration,
        action: ConfigureAction,
    ) -> bool {
        match input {
            ConfigureInput::Failed(e) => if self.stage == ConfigureStage::Search {
                (now, action) == self.stepped(ConfigureInput::Connector(None))
            } else if self.stage == ConfigureStage::Clear && e == Error::SystemError(EBUSY)
                && self.tries < CLEAR_TRIES {
                action == ConfigureAction::Sleep(CLEAR_DELAY) && now == self.at(
                    ConfigureStage::Sleep,
                )
            } else {
                action == ConfigureAction::Return(Err(e)) && now == self.at(
                    ConfigureStage::Over,
                )
            },
            ConfigureInput::Edid(edid) => {
                let known = self.connector->Some_0;
                match address_in_extensions(edid@, 128) {
                    Some(address) => {
                        &&& action == ConfigureAction::SetPhysicalAddress(address)
                        &&& now == (Configuration {
                            connector: None,
                            new_connector: Some(
                                DrmConnector { physical_address: address, ..known },
                            ),
                            ..self.at(ConfigureStage::SetAddress)
                        })
                    },
                    None => {
                        &&& action matches ConfigureAction::Return(Err(e)) && e@
                            == ErrorView::UnknownError("Failed to parse EDID"@)
                        &&& now == (Configuration {
                            connector: None,
                            ..self.at(ConfigureStage::Over)
                        })
                    },
                }
            },
            _ => (now, action) == self.stepped(input),
        }
    }

    /// The configuration of a device at its beginning, and what is done first.
    pub open spec fn begun(
        settings: Settings,
        osd_name: String,
        connector: Option<DrmConnector>,
    ) -> (Configuration, ConfigureAction) {
        (
            Configuration {
                stage: ConfigureStage::DriverName,
                settings,
                osd_name: Some(osd_name),
                connector,
                caps: 0,
                info: ConnectorInfo::NoConnector,
                new_connector: None,
                tries: 0,
            },
            ConfigureAction::ReadDriverName,
        )
    }

    /// Begin to configure a device that may be known to have a connector.
    pub fn start(
        settings: Settings,
        osd_name: String,
        connector: Option<DrmConnector>,
    ) -> (r: (Configuration, ConfigureAction))
        ensures
            r == Self::begun(settings, osd_name, connector),
            r.0.wf(),
    {
        (
            Configuration {
                stage: ConfigureStage::DriverName,
                settings,
                osd_name: Some(osd_name),
                connector,
                caps: 0,
                info: ConnectorInfo::NoConnector,
                new_connector: None,
                tries: 0,
            },
            ConfigureAction::ReadDriverName,
        )
    }

    fn proceed(&mut self) -> (action: ConfigureAction)
        ensures
            (*final(self), action) == old(self).after_address(),
    {
        if self.caps & CEC_CAP_LOG_ADDRS != 0 {
            self.stage = ConfigureStage::Clear;
            self.tries = 1;
            ConfigureAction::ClearLogicalAddresses
        } else {
            self.stage = ConfigureStage::Follower;
            ConfigureAction::EnableFollower
        }
    }

    fn fail(&mut self, e: Error) -> (action: ConfigureAction)
        ensures
            *final(self) == old(self).at(ConfigureStage::Over),
            action == ConfigureAction::Return(Err(e)),
    {
        self.stage = ConfigureStage::Over;
        ConfigureAction::Return(Err(e))
    }

    /// Go on with what came of the last action. Where no connector is found, the physical address of
    /// the settings is taken, and without one none is set. A failure ends the configuration, with
    /// two exceptions: a search that fails has found nothing, and a busy device is asked again after
    /// a while, but not for ever. An EDID without a physical address counts as a failure.
    pub fn next(&mut self, input: ConfigureInput) -> (action: ConfigureAction)
        requires
            old(self).wf(),
            old(self).awaits(input),
        ensures
            !(action is Return) ==> final(self).wf(),
            action is Return <==> final(self).stage == ConfigureStage::Over,
            final(self).actions_left() < old(self).actions_left(),
            old(self).moves(input, *final(self), action),
    {
        match input {
            ConfigureInput::Failed(e) => match self.stage {
                ConfigureStage::Search => self.fall_back(),
                ConfigureStage::Clear => {
                    let busy = match e {
                        Error::SystemError(n) => n == EBUSY,
                        _ => false,
                    };
                    if busy && self.tries < CLEAR_TRIES {
                        self.stage = ConfigureStage::Sleep;
                        ConfigureAction::Sleep(CLEAR_DELAY)
                    } else {
                        self.fail(e)
                    }
                },
                _ => self.fail(e),
            },
            ConfigureInput::Edid(edid) => match self.connector.take() {
                Some(mut connector) => match connector.reload_physical_address(edid.as_slice()) {
                    Err(e) => self.fail(e),
                    Ok(()) => {
                        let address: PhysicalAddress = connector.physical_address;
                        self.new_connector = Some(connector);
                        self.stage = ConfigureStage::SetAddress;
                        ConfigureAction::SetPhysicalAddress(address)
                    },
                },
                None => self.fail(Error::InvalidData),
            },
            ConfigureInput::Capabilities(caps) => {
                self.caps = caps;
                if self.connector.is_some() {
                    self.stage = ConfigureStage::Info;
                    ConfigureAction::DescribeConnector
                } else if caps & CEC_CAP_CONNECTOR_INFO != 0 {
                    self.stage = ConfigureStage::Info;
                    ConfigureAction::ReadConnectorInfo
                } else {
                    self.info = ConnectorInfo::NoConnector;
                    self.stage = ConfigureStage::Initiator;
                    ConfigureAction::EnableInitiator
                }
            },
            ConfigureInput::Info(info) => {
                self.info = info;
                self.stage = ConfigureStage::Initiator;
                ConfigureAction::EnableInitiator
            },
            ConfigureInput::Address(address) => {
                self.stage = ConfigureStage::LookUp;
                let info = copy_info(&self.info);
                ConfigureAction::LookUpConnector(info, address)
            },
            ConfigureInput::Connector(connector) => match self.stage {
                ConfigureStage::Search => match connector {
                    Some(connector) => {
                        let address: PhysicalAddress = connector.physical_address;
                        self.new_connector = Some(connector);
                        self.stage = ConfigureStage::SetAddress;
                        ConfigureAction::SetPhysicalAddress(address)
                    },
                    None => self.fall_back(),
                },
                _ => {
                    self.new_connector = connector;
                    self.proceed()
                },
            },
            ConfigureInput::Done => self.next_done(),
        }
    }

    fn fall_back(&mut self) -> (action: ConfigureAction)
        requires
            old(self).stage == ConfigureStage::Search,
        ensures
            (*final(self), action) == old(self).stepped(ConfigureInput::Connector(None)),
    {
        match self.settings.physical_address {
            Some(address) => {
                self.stage = ConfigureStage::SetAddress;
                ConfigureAction::SetPhysicalAddress(address)
            },
            None => self.proceed(),
        }
    }

    fn next_done(&mut self) -> (action: ConfigureAction)
        requires
            old(self).wf(),
            old(self).awaits(ConfigureInput::Done),
        ensures
            !(action is Return) ==> final(self).wf(),
            action is Return <==> final(self).stage == ConfigureStage::Over,
            final(self).actions_left() < old(self).actions_left(),
            (*final(self), action) == old(self).stepped(ConfigureInput::Done),
    {
        match self.stage {
            ConfigureStage::DriverName => {
                self.stage = ConfigureStage::AdapterName;
                ConfigureAction::ReadAdapterName
            },
            ConfigureStage::AdapterName => {
                self.stage = ConfigureStage::Capabilities;
                ConfigureAction::ReadCapabilities
            },
            ConfigureStage::Initiator => {
                if self.caps & CEC_CAP_PHYS_ADDR != 0 {
                    if self.connector.is_some() {
                        self.stage = ConfigureStage::Edid;
                        ConfigureAction::ReadEdid
                    } else {
                        self.stage = ConfigureStage::Search;
                        ConfigureAction::FindConnector
                    }
                } else {
                    let drm = match &self.info {
                        ConnectorInfo::DrmConnector { .. } => true,
                        _ => false,
                    };
                    if drm {
                        self.stage = ConfigureStage::ReadAddress;
                        ConfigureAction::ReadPhysicalAddress
                    } else {
                        self.proceed()
                    }
                }
            },
            ConfigureStage::SetAddress => self.proceed(),
            ConfigureStage::Clear => {
                self.stage = ConfigureStage::Name;
                ConfigureAction::SetOsdName(self.osd_name.take().unwrap())
            },
            ConfigureStage::Sleep => {
                self.stage = ConfigureStage::Clear;
                self.tries = self.tries + 1;
                ConfigureAction::ClearLogicalAddresses
            },
            ConfigureStage::Name => {
                self.stage = ConfigureStage::Vendor;
                ConfigureAction::SetVendorId(self.settings.vendor_id)
            },
            ConfigureStage::Vendor => {
                self.stage = ConfigureStage::LogicalAddress;
                ConfigureAction::SetLogicalAddress(self.settings.logical_address)
            },
            ConfigureStage::LogicalAddress => {
                self.stage = ConfigureStage::Follower;
                ConfigureAction::EnableFollower
            },
            _ => {
                self.stage = ConfigureStage::Over;
                ConfigureAction::Return(Ok(self.new_connector.take()))
            },
        }
    }
}

/// No physical address is made up: where the search for a connector ends, one is set just where a
/// connector was found or the settings have one.
pub proof fn addresses_are_not_made_up(configuration: Configuration, found: Option<DrmConnector>)
    requires
        configuration.stage == ConfigureStage::Search,
    ensures
        match (found, configuration.settings.physical_address) {
            (Some(connector), _) => {
                configuration.stepped(ConfigureInput::Connector(found)).1
                    == ConfigureAction::SetPhysicalAddress(connector.physical_address)
            },
            (None, Some(address)) => {
                configuration.stepped(ConfigureInput::Connector(found)).1
                    == ConfigureAction::SetPhysicalAddress(address)
            },
            (None, None) => !(configuration.stepped(
                ConfigureInput::Connector(found),
            ).1 is SetPhysicalAddress),
        },
{
}

fn copy_info(info: &ConnectorInfo) -> (r: ConnectorInfo)
    ensures
        r == *info,
{
    match info {
        ConnectorInfo::NoConnector => ConnectorInfo::NoConnector,
        ConnectorInfo::DrmConnector { card_no, connector_id } => ConnectorInfo::DrmConnector {
            card_no: *card_no,
            connector_id: *connector_id,
        },
        ConnectorInfo::Unknown { ty, data } => ConnectorInfo::Unknown { ty: *ty, data: *data },
    }
}

/// What came of an action, where that leads, and what is done there.
pub struct ConfigureStep {
    pub input: ConfigureInput,
    pub configuration: Configuration,
    pub action: ConfigureAction,
}

/// The configuration of a device, step by step.
pub struct ConfigureRun {
    pub configuration: Configuration,
    pub steps: Seq<ConfigureStep>,
}

impl ConfigureRun {
    /// Where the first step leads, with the steps that are left.
    pub open spec fn advanced(self) -> ConfigureRun {
        ConfigureRun { configuration: self.steps[0].configuration, steps: self.steps.skip(1) }
    }

    /// Whether each step follows from what came of the action before it.
    pub open spec fn follows(self) -> bool
        decreases self.steps.len(),
    {
        self.steps.len() > 0 ==> {
            let step = self.steps[0];
            &&& self.configuration.wf() && self.configuration.awaits(step.input)
            &&& self.configuration.moves(step.input, step.configuration, step.action)
            &&& self.advanced().follows()
        }
    }

    /// What is done, step by step.
    pub open spec fn actions(self) -> Seq<ConfigureAction> {
        self.steps.map_values(|step: ConfigureStep| step.action)
    }

    /// Whether a device with some capabilities is configured from the beginning to its end.
    pub open spec fn succeeds(self, caps: u32) -> bool {
        &&& self.configuration.stage == ConfigureStage::DriverName
        &&& self.follows()
        &&& self.reads(caps)
        &&& self.steps.len() > 0
        &&& self.steps.last().action matches ConfigureAction::Return(Ok(_))
    }

    /// Whether the capabilities of the device are read to be these.
    pub open spec fn reads(self, caps: u32) -> bool {
        forall|i: int|
            0 <= i < self.steps.len() ==> ((#[trigger] self.steps[i]).input matches
                ConfigureInput::Capabilities(read) ==> read == caps)
    }
}

/// However a configuration goes, the name, the vendor and the kind of logical address that are set
/// are those that it was begun with.
pub proof fn what_is_set_is_what_was_asked_for(run: ConfigureRun, i: int)
    requires
        run.configuration.stage == ConfigureStage::DriverName,
        run.configuration.osd_name is Some,
        run.follows(),
        0 <= i < run.steps.len(),
    ensures
        run.steps[i].action matches ConfigureAction::SetLogicalAddress(ty) ==> ty
            == run.configuration.settings.logical_address,
        run.steps[i].action matches ConfigureAction::SetVendorId(vendor_id) ==> vendor_id
            == run.configuration.settings.vendor_id,
        run.steps[i].action matches ConfigureAction::SetOsdName(name) ==> name
            == run.configuration.osd_name->Some_0,
{
    sets_as_asked(run, run.configuration.settings, run.configuration.osd_name->Some_0, i);
}

proof fn sets_as_asked(run: ConfigureRun, settings: Settings, name: String, i: int)
    requires
        run.configuration.settings == settings,
        run.configuration.is_named() || run.configuration.osd_name == Some(name),
        run.follows(),
        0 <= i < run.steps.len(),
    ensures
        run.steps[i].action matches ConfigureAction::SetLogicalAddress(ty) ==> ty
            == settings.logical_address,
        run.steps[i].action matches ConfigureAction::SetVendorId(vendor_id) ==> vendor_id
            == settings.vendor_id,
        run.steps[i].action matches ConfigureAction::SetOsdName(new) ==> new == name,
    decreases run.steps.len(),
{
    if i > 0 {
        sets_as_asked(run.advanced(), settings, name, i - 1);
        assert(run.advanced().steps[i - 1] == run.steps[i]);
    }
}

/// A device whose logical addresses are for this side to set, and that is configured without a
/// failure, has given up its old ones and got its name, its vendor and a logical address, in this
/// order. Then, as on every device that is configured without a failure, following is enabled, and
/// that is the last that is done.
pub proof fn settings_are_made_in_order(run: ConfigureRun, caps: u32)
    requires
        run.succeeds(caps),
    ensures
        ({
            let n = run.steps.len();
            &&& n >= 2
            &&& run.steps[n - 2].action is EnableFollower
            &&& caps & 0x02 != 0 ==> {
                &&& n >= 6
                &&& run.steps[n - 3].action is SetLogicalAddress
                &&& run.steps[n - 4].action is SetVendorId
                &&& run.steps[n - 5].action is SetOsdName
                &&& run.steps[n - 6].action is ClearLogicalAddresses
            }
            &&& caps & 0x02 == 0 ==> forall|i: int|
                0 <= i < n ==> !((#[trigger] run.steps[i]).action is SetLogicalAddress)
                    && !(run.steps[i].action is ClearLogicalAddresses)
        }),
{
    made_in_order(run, caps);
}

/// Whether a stage belongs to the settings that only some devices are given.
spec fn is_addressing(stage: ConfigureStage) -> bool {
    match stage {
        ConfigureStage::Clear | ConfigureStage::Sleep | ConfigureStage::Name => true,
        ConfigureStage::Vendor | ConfigureStage::LogicalAddress => true,
        _ => false,
    }
}

proof fn made_in_order(run: ConfigureRun, caps: u32)
    requires
        run.follows(),
        run.reads(caps),
        run.steps.len() > 0,
        run.steps.last().action matches ConfigureAction::Return(Ok(_)),
        match run.configuration.stage {
            ConfigureStage::DriverName | ConfigureStage::AdapterName => true,
            ConfigureStage::Capabilities => true,
            _ => run.configuration.caps == caps,
        },
        is_addressing(run.configuration.stage) ==> caps & 0x02 != 0,
    ensures
        ({
            let n = run.steps.len();
            &&& run.configuration.stage != ConfigureStage::Follower ==> n >= 2 && run.steps[n
                - 2].action is EnableFollower
            &&& run.configuration.stage == ConfigureStage::Follower ==> n == 1
            &&& run.configuration.stage == ConfigureStage::LogicalAddress ==> n == 2
            &&& run.configuration.stage == ConfigureStage::Vendor ==> n == 3 && run.steps[0].action
                is SetLogicalAddress
            &&& run.configuration.stage == ConfigureStage::Name ==> n == 4 && run.steps[0].action
                is SetVendorId && run.steps[1].action is SetLogicalAddress
            &&& run.configuration.stage == ConfigureStage::Clear || run.configuration.stage
                == ConfigureStage::Sleep ==> n >= 5 && run.steps[n - 3].action is SetLogicalAddress
                && run.steps[n - 4].action is SetVendorId && run.steps[n - 5].action is SetOsdName
            &&& run.configuration.stage == ConfigureStage::Sleep ==> n >= 6 && run.steps[n
                - 6].action is ClearLogicalAddresses
            &&& run.configuration.stage == ConfigureStage::Clear && n > 5 ==> run.steps[n
                - 6].action is ClearLogicalAddresses
            &&& !is_addressing(run.configuration.stage) && run.configuration.stage
                != ConfigureStage::Follower && caps & 0x02 != 0 ==> {
                &&& n >= 6
                &&& run.steps[n - 3].action is SetLogicalAddress
                &&& run.steps[n - 4].action is SetVendorId
                &&& run.steps[n - 5].action is SetOsdName
                &&& run.steps[n - 6].action is ClearLogicalAddresses
            }
            &&& caps & 0x02 == 0 ==> forall|i: int|
                0 <= i < n ==> !((#[trigger] run.steps[i]).action is SetLogicalAddress)
                    && !(run.steps[i].action is ClearLogicalAddresses)
        }),
    decreases run.steps.len(),
{
    let next = run.advanced();
    let n = run.steps.len();
    let step = run.steps[0];
    assert(step.input matches ConfigureInput::Capabilities(read) ==> read == caps);
    if n > 1 {
        assert(next.follows() && next.steps.len() > 0);
        assert(next.configuration.wf());
        assert forall|i: int| 0 <= i < n - 1 implies #[trigger] next.steps[i] == run.steps[i
            + 1] by {}
        assert(next.steps.last() == run.steps.last());
        assert forall|i: int| 0 <= i < next.steps.len() implies ((
        #[trigger] next.steps[i]).input matches ConfigureInput::Capabilities(read) ==> read
            == caps) by {
            assert(next.steps[i] == run.steps[i + 1]);
        }
        made_in_order(next, caps);
        assert(run.steps[n - 2] == (if n > 2 { next.steps[n - 3] } else { step }));
        assert(n > 2 ==> run.steps[n - 3] == (if n > 3 { next.steps[n - 4] } else { step }));
        assert(n > 3 ==> run.steps[n - 4] == (if n > 4 { next.steps[n - 5] } else { step }));
        assert(n > 4 ==> run.steps[n - 5] == (if n > 5 { next.steps[n - 6] } else { step }));
        assert(n > 5 ==> run.steps[n - 6] == (if n > 6 { next.steps[n - 7] } else { step }));
        assert forall|i: int| 0 <= i < n && caps & 0x02 == 0 implies !((
        #[trigger] run.steps[i]).action is SetLogicalAddress) && !(run.steps[i].action
            is ClearLogicalAddresses) by {
            if i > 0 {
                assert(next.steps[i - 1] == run.steps[i]);
            }
        }
    }
}

/// First the device is asked for its driver, its adapter and its capabilities. A connector that it
/// is known to have is looked up; else it is asked for one if it can tell. Then it may send.
pub proof fn a_device_is_asked_first(
    c: Configuration,
    caps: u32,
    info: ConnectorInfo,
)
    requires
        c.stage == ConfigureStage::DriverName,
    ensures
        ({
            let (adapter, first) = c.stepped(ConfigureInput::Done);
            let (capable, second) = adapter.stepped(ConfigureInput::Done);
            let (knows, third) = capable.stepped(ConfigureInput::Capabilities(caps));
            let (able, fourth) = knows.stepped(ConfigureInput::Info(info));
            &&& first == ConfigureAction::ReadAdapterName
            &&& second == ConfigureAction::ReadCapabilities
            &&& knows.caps == caps && knows.connector == c.connector && knows.settings
                == c.settings
            &&& c.connector is Some ==> third == ConfigureAction::DescribeConnector
            &&& c.connector is None && caps & 0x100 != 0 ==> third
                == ConfigureAction::ReadConnectorInfo
            &&& c.connector is None && caps & 0x100 == 0 ==> third
                == ConfigureAction::EnableInitiator && knows.info == ConnectorInfo::NoConnector
                && knows.stage == ConfigureStage::Initiator
            &&& third != ConfigureAction::EnableInitiator ==> fourth
                == ConfigureAction::EnableInitiator && able == (Configuration {
                info,
                stage: ConfigureStage::Initiator,
                ..knows
            })
        }),
{
}

/// Where the physical address is for this side to set, it is that in the EDID behind the connector
/// that the device is known to have, or that of the only connector that has one. Where it is not,
/// the connector that the device says it has is looked up with the address that the device has.
pub proof fn addresses_come_from_connectors(
    c: Configuration,
    found: DrmConnector,
    own: PhysicalAddress,
    looked_up: Option<DrmConnector>,
)
    requires
        c.stage == ConfigureStage::Initiator,
    ensures
        ({
            let (next, action) = c.stepped(ConfigureInput::Done);
            if c.caps & 0x01 != 0 {
                let (set, setting) = next.stepped(ConfigureInput::Connector(Some(found)));
                &&& c.connector is Some ==> action == ConfigureAction::ReadEdid && next.stage
                    == ConfigureStage::Edid
                &&& c.connector is None ==> {
                    &&& action == ConfigureAction::FindConnector
                    &&& setting == ConfigureAction::SetPhysicalAddress(found.physical_address)
                    &&& set.new_connector == Some(found)
                }
            } else {
                let (looking, look) = next.stepped(ConfigureInput::Address(own));
                let (ready, _) = looking.stepped(ConfigureInput::Connector(looked_up));
                &&& c.info is DrmConnector ==> {
                    &&& action == ConfigureAction::ReadPhysicalAddress
                    &&& look == ConfigureAction::LookUpConnector(c.info, own)
                    &&& ready.new_connector == looked_up
                }
                &&& !(c.info is DrmConnector) ==> {
                    &&& c.caps & 0x02 != 0 ==> action == ConfigureAction::ClearLogicalAddresses
                    &&& c.caps & 0x02 == 0 ==> action == ConfigureAction::EnableFollower
                    &&& next.new_connector == c.new_connector
                }
            }
        }),
{
}

/// The address in an EDID is set, and the connector is then known with that address. An EDID
/// without one is an error.
pub proof fn an_edid_gives_the_address(
    c: Configuration,
    edid: Vec<u8>,
    now: Configuration,
    action: ConfigureAction,
)
    requires
        c.stage == ConfigureStage::Edid,
        c.connector is Some,
        c.moves(ConfigureInput::Edid(edid), now, action),
    ensures
        match address_in_extensions(edid@, 128) {
            Some(address) => {
                &&& action == ConfigureAction::SetPhysicalAddress(address)
                &&& now.new_connector matches Some(new) && new.physical_address == address
                    && new.card == c.connector->Some_0.card && new.connector
                    == c.connector->Some_0.connector
            },
            None => action matches ConfigureAction::Return(Err(_)),
        },
{
}

/// A busy device is asked to give up its logical addresses again after a fifth of a second, five
/// times in all. Every other failure but that of a search ends the configuration.
pub proof fn a_busy_device_is_waited_for(
    c: Configuration,
    e: Error,
    now: Configuration,
    action: ConfigureAction,
)
    requires
        c.wf(),
        c.moves(ConfigureInput::Failed(e), now, action),
        c.stage != ConfigureStage::Search,
    ensures
        if c.stage == ConfigureStage::Clear && e == Error::SystemError(16) && c.tries < 5 {
            &&& action == ConfigureAction::Sleep(200)
            &&& now.stepped(ConfigureInput::Done).1 == ConfigureAction::ClearLogicalAddresses
            &&& now.stepped(ConfigureInput::Done).0 == (Configuration {
                tries: (c.tries + 1) as u32,
                ..c
            })
        } else {
            action == ConfigureAction::Return(Err(e))
        },
{
}

/// The configuration ends with the connector that was found.
pub proof fn the_connector_is_returned(c: Configuration)
    requires
        c.stage == ConfigureStage::Follower,
    ensures
        c.stepped(ConfigureInput::Done).1 == ConfigureAction::Return(Ok(c.new_connector)),
{
}

/// The connector that was found is kept to the end.
pub proof fn the_connector_is_kept(
    c: Configuration,
    input: ConfigureInput,
    now: Configuration,
    action: ConfigureAction,
)
    requires
        c.awaits(input),
        c.moves(input, now, action),
        !(input is Edid),
        !(input is Connector),
        !(action is Return),
    ensures
        now.new_connector == c.new_connector,
{
}

/// The first time that logical addresses are cleared counts as the first.
pub proof fn the_first_try_counts(
    c: Configuration,
    input: ConfigureInput,
    now: Configuration,
    action: ConfigureAction,
)
    requires
        c.awaits(input),
        c.moves(input, now, action),
        action is ClearLogicalAddresses,
        c.stage != ConfigureStage::Sleep,
    ensures
        now.tries == 1,
{
}

/// A configuration begins with the settings, the name and the connector that it is asked for, and
/// the name of the driver is read first.
pub proof fn a_configuration_begins_as_asked_for(
    settings: Settings,
    osd_name: String,
    connector: Option<DrmConnector>,
)
    ensures
        ({
            let (configuration, action) = Configuration::begun(settings, osd_name, connector);
            &&& configuration.stage == ConfigureStage::DriverName
            &&& configuration.settings == settings
            &&& configuration.osd_name == Some(osd_name)
            &&& configuration.connector == connector
            &&& configuration.new_connector is None && configuration.tries == 0
            &&& action == ConfigureAction::ReadDriverName
        }),
{
}

/// What the kernel's numbers for capabilities and for a busy device are, and how often and how long
/// a busy device is waited for.
pub proof fn capabilities_have_numbers()
    ensures
        CEC_CAP_PHYS_ADDR == 1 && CEC_CAP_LOG_ADDRS == 2 && CEC_CAP_TRANSMIT == 4,
        CEC_CAP_CONNECTOR_INFO == 256,
        EBUSY == 16,
        CLEAR_TRIES == 5 && CLEAR_DELAY == 200,
{
}

} // verus!
