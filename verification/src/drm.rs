//! Connectors of graphics cards, and the physical address in the EDID of what is behind them.

use vstd::prelude::*;

use crate::address::{big_endian, PhysicalAddress};
use crate::device::ConnectorInfo;
use crate::error::{str_eq, Error, ErrorView};
use crate::text::{
    begins_with, decimal, elements, parse_u32, split_once, split_path, starts_with, strip_prefix,
    to_decimal, trim, trimmed, u32_value, views,
};

verus! {

/// A connector of a graphics card.
#[derive(Debug, Clone, PartialEq)]
pub struct DrmConnector {
    pub card: u32,
    pub connector: String,
    pub physical_address: PhysicalAddress,
}

/// The error number for what is not there.
pub const ENOENT: i32 = 2;

/// What is below the directory of a card.
#[derive(Debug)]
pub struct CardEntry {
    /// The name, or what comes close to it where it is not text.
    pub name: String,
    /// Whether the name is text.
    pub is_text: bool,
    /// The contents of the `connector_id` file, where this is a directory.
    pub connector_id: Result<Option<String>, Error>,
}

/// What comes of the search for a connector below the directory of its card.
pub enum LookUp {
    /// The connector is at a place.
    Found(int),
    /// The connector is at a place, but its name is not text.
    Misnamed(int),
    /// What is at a place cannot be read.
    Unreadable(int),
    /// There is no such connector.
    Missing,
}

/// The directory with the graphics cards and their connectors.
pub open spec fn drm_dir() -> Seq<char> {
    "/sys/class/drm"@
}

/// The identifier that marks a vendor specific data block as one of HDMI.
pub open spec fn hdmi_oui() -> Seq<u8> {
    seq![0x03u8, 0x0cu8, 0x00u8]
}

/// Whether the data block at a place of an EDID is vendor specific and one of HDMI.
pub open spec fn is_hdmi_block(edid: Seq<u8>, offset: int) -> bool {
    edid[offset] / 32 == 3 && edid.subrange(offset + 1, offset + 4) == hdmi_oui()
}

/// How many bytes the data block at a place of an EDID takes, with its header.
pub open spec fn block_size(edid: Seq<u8>, offset: int) -> int {
    edid[offset] % 32 + 1
}

/// The address in the first HDMI block among the data blocks between two places. Blocks too small to
/// hold an address are passed over; a block that reaches behind the end is the last one.
pub open spec fn address_in_blocks(edid: Seq<u8>, offset: int, end: int) -> Option<PhysicalAddress>
    decreases
            if offset < end {
                end - offset
            } else {
                0
            },
{
    if offset + 1 >= edid.len() || offset >= end {
        None
    } else {
        let size = block_size(edid, offset);
        if size >= 6 && offset + size > end {
            None
        } else if size >= 6 && is_hdmi_block(edid, offset) {
            Some(PhysicalAddress(big_endian(edid[offset + 4], edid[offset + 5])))
        } else {
            address_in_blocks(edid, offset + size, end)
        }
    }
}

/// The end of the data blocks of an extension. Anything below 4 stands for no detailed timings, so
/// that the blocks may go on up to the checksum.
pub open spec fn blocks_end(edid: Seq<u8>, block: int) -> int {
    let d = edid[block + 2] as int;
    block + (if 4 <= d <= 127 { d } else { 127 })
}

/// Whether an extension is known to have no data blocks: it is no CTA extension, and of a version
/// below 3.
pub open spec fn is_skipped(edid: Seq<u8>, block: int) -> bool {
    edid[block] != 2 && edid[block + 1] < 3
}

/// The address in the first extension, from a place of the EDID on, that has one.
pub open spec fn address_in_extensions(edid: Seq<u8>, block: int) -> Option<PhysicalAddress>
    decreases edid.len() - block,
{
    if block + 128 > edid.len() {
        None
    } else {
        let here = if is_skipped(edid, block) {
            None
        } else {
            address_in_blocks(edid, block + 4, blocks_end(edid, block))
        };
        match here {
            Some(address) => Some(address),
            None => address_in_extensions(edid, block + 128),
        }
    }
}

/// What is read from the name of a connector's directory.
pub open spec fn name_parts(name: Seq<char>, card: u32, connector: Seq<char>) -> bool {
    exists|before: Seq<char>|
        {
            &&& name == #[trigger] before.push('-') + connector
            &&& !before.contains('-')
            &&& u32_value(card_numeral(before)) == Some(card as nat)
        }
}

/// The numeral in the first part of a name: what follows `card`, or all of it without that.
pub open spec fn card_numeral(before: Seq<char>) -> Seq<char> {
    if begins_with(before, "card"@) {
        before.skip(4)
    } else {
        before
    }
}

fn find_in_blocks(edid: &[u8], from: usize, end: usize) -> (r: Option<PhysicalAddress>)
    requires
        from <= end < edid@.len(),
    ensures
        r == address_in_blocks(edid@, from as int, end as int),
{
    let mut offset: usize = from;
    let n: usize = edid.len();
    while offset < end
        invariant
            n == edid@.len(),
            end < n,
            offset <= end,
            address_in_blocks(edid@, offset as int, end as int) == address_in_blocks(
                edid@,
                from as int,
                end as int,
            ),
        decreases end - offset,
    {
        let header: u8 = edid[offset];
        let size: usize = (header % 32) as usize + 1;
        if size < 6 {
            if size >= end - offset {
                assert(address_in_blocks(edid@, offset + size, end as int) is None);
                return None;
            }
            offset += size;
            continue ;
        }
        if size > end - offset {
            return None;
        }
        if header / 32 == 3 && edid[offset + 1] == 0x03 && edid[offset + 2] == 0x0c && edid[offset
            + 3] == 0x00 {
            assert(edid@.subrange(offset + 1, offset + 4) =~= hdmi_oui());
            return Some(
                PhysicalAddress(edid[offset + 4] as u16 * 256 + edid[offset + 5] as u16),
            );
        }
        proof {
            let s = edid@.subrange(offset + 1, offset + 4);
            assert(s[0] == edid@[offset + 1] && s[1] == edid@[offset + 2] && s[2] == edid@[offset
                + 3]);
            let oui = hdmi_oui();
            assert(oui[0] == 0x03 && oui[1] == 0x0c && oui[2] == 0x00);
        }
        offset += size;
    }
    None
}

/// What the names of the connectors of a card begin with.
pub open spec fn connector_prefix(card_no: u32) -> Seq<char> {
    "card"@ + decimal(card_no as nat) + "-"@
}

/// The connector of a card as the kernel describes it, by the contents of its `connector_id` file.
pub open spec fn described(card: u32, connector_id: Seq<char>) -> Option<ConnectorInfo> {
    match u32_value(trimmed(connector_id)) {
        Some(id) => Some(ConnectorInfo::DrmConnector { card_no: card, connector_id: id as u32 }),
        None => None,
    }
}

/// Whether this is the connector of a card with a number.
pub open spec fn is_connector(entry: Result<CardEntry, Error>, card_no: u32, id: u32) -> bool {
    &&& entry matches Ok(e)
    &&& begins_with(e.name@, connector_prefix(card_no))
    &&& e.connector_id matches Ok(Some(text))
    &&& u32_value(trimmed(text@)) == Some(id as nat)
}

/// Whether it cannot be told what this is.
pub open spec fn is_unreadable(entry: Result<CardEntry, Error>, card_no: u32) -> bool {
    match entry {
        Ok(e) => begins_with(e.name@, connector_prefix(card_no)) && e.connector_id is Err,
        Err(_) => true,
    }
}

/// Why it cannot be told what this is.
pub open spec fn reading_error(entry: Result<CardEntry, Error>) -> Error {
    match entry {
        Ok(e) => e.connector_id->Err_0,
        Err(e) => e,
    }
}

/// What comes of the search for the connector of a card with a number, from a place on. The first
/// that is found counts, and what cannot be read ends the search.
pub open spec fn looked_up(
    card_no: u32,
    id: u32,
    dir: Seq<Result<CardEntry, Error>>,
    from: int,
) -> LookUp
    decreases dir.len() - from,
{
    if from >= dir.len() {
        LookUp::Missing
    } else if is_unreadable(dir[from], card_no) {
        LookUp::Unreadable(from)
    } else if is_connector(dir[from], card_no, id) {
        if dir[from]->Ok_0.is_text {
            LookUp::Found(from)
        } else {
            LookUp::Misnamed(from)
        }
    } else {
        looked_up(card_no, id, dir, from + 1)
    }
}

impl DrmConnector {
    /// The directory with the graphics cards and their connectors.
    pub fn drm_base() -> (r: &'static str)
        ensures
            r@ == drm_dir(),
    {
        "/sys/class/drm"
    }

    /// The directory of the connector.
    pub open spec fn path(&self) -> Seq<char> {
        drm_dir() + "/card"@ + decimal(self.card as nat) + "-"@ + self.connector@
    }

    /// The directory of the connector.
    pub fn drm_path(&self) -> (r: String)
        ensures
            r@ == self.path(),
    {
        let mut path: String = DrmConnector::drm_base().to_owned();
        path.append("/card");
        path.append(to_decimal(self.card as u64).as_str());
        path.append("-");
        path.append(self.connector.as_str());
        path
    }

    /// The physical address in an EDID: the one in the first HDMI block of an extension.
    ///
    /// A lot of what is not quite right is let through, since a lot of vendors ship bad EDIDs.
    pub fn parse_hdmi_edid_pa(edid: &[u8]) -> (r: Option<PhysicalAddress>)
        ensures
            r == address_in_extensions(edid@, 128),
    {
        let n: usize = edid.len();
        if n < 128 {
            return None;
        }
        let last: usize = n - 128;
        let mut block: usize = 128;
        while block <= last
            invariant
                n == edid@.len(),
                last == n - 128,
                128 <= block <= n,
                address_in_extensions(edid@, block as int) == address_in_extensions(edid@, 128),
            decreases n - block,
        {
            if !(edid[block] != 2 && edid[block + 1] < 3) {
                let d: usize = edid[block + 2] as usize;
                let end: usize = block + if 4 <= d && d <= 127 {
                    d
                } else {
                    127
                };
                match find_in_blocks(edid, block + 4, end) {
                    Some(address) => return Some(address),
                    None => {},
                }
            }
            block += 128;
        }
        None
    }

    /// The number of the card and the name of the connector in the name of a directory, as in
    /// `card0-HDMI-A-1`.
    pub fn parse_name(name: &str) -> (r: Result<(u32, String), Error>)
        ensures
            match r {
                Ok((card, connector)) => name_parts(name@, card, connector@),
                Err(e) => if name@.contains('-') {
                    e@ == ErrorView::UnknownError("Invalid card number"@) && forall|
                        card: u32,
                        connector: Seq<char>,
                    |
                        !name_parts(name@, card, connector)
                } else {
                    e@ == ErrorView::UnknownError("Invalid path"@)
                },
            },
    {
        let (before, connector) = match split_once(name, '-') {
            Some(parts) => parts,
            None => return Err(Error::UnknownError("Invalid path".to_owned())),
        };
        proof {
            reveal_strlit("card");
        }
        let numeral = match strip_prefix(before, "card") {
            Some(rest) => rest,
            None => before,
        };
        assert(numeral@ =~= card_numeral(before@));
        match parse_u32(numeral) {
            Some(card) => {
                assert(name@ == before@.push('-') + connector@);
                Ok((card, connector.to_owned()))
            },
            None => {
                proof {
                    assert(name@[before@.len() as int] == '-');
                    assert forall|card: u32, other: Seq<char>| !name_parts(name@, card, other) by {
                        if name_parts(name@, card, other) {
                            let b = choose|b: Seq<char>|
                                {
                                    &&& name@ == #[trigger] b.push('-') + other
                                    &&& !b.contains('-')
                                    &&& u32_value(card_numeral(b)) == Some(card as nat)
                                };
                            crate::text::split_is_unique('-', b, other, before@, connector@);
                        }
                    }
                }
                Err(Error::UnknownError("Invalid card number".to_owned()))
            },
        }
    }

    /// Whether the status of a connector says that something is connected.
    pub fn is_connected(status: &str) -> (r: bool)
        ensures
            r == (trimmed(status@) == "connected"@),
    {
        str_eq(trim(status), "connected")
    }

    /// The connector whose EDID has a physical address other than that of a television.
    pub fn from_edid(card: u32, connector: &str, edid: &[u8]) -> (r: Option<DrmConnector>)
        ensures
            match address_in_extensions(edid@, 128) {
                Some(address) if address.0 != 0xffff && address.0 != 0 => r matches Some(c)
                    && c.card == card && c.connector@ == connector@ && c.physical_address
                    == address,
                _ => r is None,
            },
    {
        match DrmConnector::parse_hdmi_edid_pa(edid) {
            Some(physical_address) => {
                if !physical_address.is_valid() || physical_address.is_root() {
                    None
                } else {
                    Some(DrmConnector { card, connector: connector.to_owned(), physical_address })
                }
            },
            None => None,
        }
    }

    /// Whether a path lies among the connectors of graphics cards.
    pub open spec fn is_drm_path(path: Seq<char>) -> bool {
        &&& path.len() > 0 && path[0] == '/'
        &&& elements(path).len() >= 3
        &&& elements(path)[0] == "sys"@ && elements(path)[1] == "class"@ && elements(path)[2]
            == "drm"@
    }

    /// The connector with a directory, by the contents of its `status` and `edid` files where there
    /// are such files. There is none where nothing is connected, or what is connected has no physical
    /// address other than that of a television.
    pub fn from_drm_path(path: &str, status: Option<&str>, edid: Option<&[u8]>) -> (r: Result<
        Option<DrmConnector>,
        Error,
    >)
        ensures
            if !Self::is_drm_path(path@) {
                r matches Err(e) && e@ == ErrorView::UnknownError("Not a DRM path"@)
            } else if !elements(path@).last().contains('-') {
                r matches Err(e) && e@ == ErrorView::UnknownError("Invalid path"@)
            } else if forall|card: u32, connector: Seq<char>|
                !name_parts(elements(path@).last(), card, connector) {
                r matches Err(e) && e@ == ErrorView::UnknownError("Invalid card number"@)
            } else {
                &&& r is Ok
                &&& match (status, edid) {
                    (Some(status), Some(edid)) => if trimmed(status@) != "connected"@ {
                        r->Ok_0 is None
                    } else {
                        match address_in_extensions(edid@, 128) {
                            Some(address) if address.0 != 0xffff && address.0 != 0 => {
                                r->Ok_0 matches Some(c) && name_parts(
                                    elements(path@).last(),
                                    c.card,
                                    c.connector@,
                                ) && c.physical_address == address
                            },
                            _ => r->Ok_0 is None,
                        }
                    },
                    _ => r->Ok_0 is None,
                }
            },
    {
        let parts = split_path(path);
        assert(parts@.len() == elements(path@).len());
        if path.unicode_len() == 0 || path.get_char(0) != '/' || parts.len() < 3 {
            return Err(Error::UnknownError("Not a DRM path".to_owned()));
        }
        proof {
            assert(views(parts@)[0] == parts@[0]@ && views(parts@)[1] == parts@[1]@
                && views(parts@)[2] == parts@[2]@);
        }
        if !(str_eq(parts[0].as_str(), "sys") && str_eq(parts[1].as_str(), "class") && str_eq(
            parts[2].as_str(),
            "drm",
        )) {
            return Err(Error::UnknownError("Not a DRM path".to_owned()));
        }
        let name = parts[parts.len() - 1].as_str();
        assert(name@ == elements(path@).last());
        let (card, connector) = match DrmConnector::parse_name(name) {
            Ok(parts) => parts,
            Err(e) => return Err(e),
        };
        proof {
            let before = choose|before: Seq<char>|
                {
                    &&& name@ == #[trigger] before.push('-') + connector@
                    &&& !before.contains('-')
                    &&& u32_value(card_numeral(before)) == Some(card as nat)
                };
            assert(name@[before.len() as int] == '-');
        }
        match (status, edid) {
            (Some(status), Some(edid)) => if DrmConnector::is_connected(status) {
                Ok(DrmConnector::from_edid(card, connector.as_str(), edid))
            } else {
                Ok(None)
            },
            _ => Ok(None),
        }
    }

    /// Take the physical address from an EDID that was read again.
    pub fn reload_physical_address(&mut self, edid: &[u8]) -> (r: Result<(), Error>)
        ensures
            final(self).card == old(self).card,
            final(self).connector == old(self).connector,
            match address_in_extensions(edid@, 128) {
                Some(address) => r is Ok && final(self).physical_address == address,
                None => {
                    &&& final(self).physical_address == old(self).physical_address
                    &&& r matches Err(e) && e@ == ErrorView::UnknownError("Failed to parse EDID"@)
                },
            },
    {
        match DrmConnector::parse_hdmi_edid_pa(edid) {
            Some(physical_address) => {
                self.physical_address = physical_address;
                Ok(())
            },
            None => Err(Error::UnknownError("Failed to parse EDID".to_owned())),
        }
    }

    /// The connector as the kernel describes it, by the contents of its `connector_id` file.
    pub fn to_connector_info(&self, connector_id: &str) -> (r: Result<ConnectorInfo, Error>)
        ensures
            match described(self.card, connector_id@) {
                Some(info) => r == Ok::<ConnectorInfo, Error>(info),
                None => r matches Err(e) && e@ == ErrorView::UnknownError(
                    "Invalid connector id"@,
                ),
            },
    {
        match parse_u32(trim(connector_id)) {
            Some(connector_id) => Ok(
                ConnectorInfo::DrmConnector { card_no: self.card, connector_id },
            ),
            None => Err(Error::UnknownError("Invalid connector id".to_owned())),
        }
    }

    /// Whether a directory beside a card may be that of one of its connectors.
    pub fn is_connector_name(card_no: u32, name: &str) -> (r: bool)
        ensures
            r == begins_with(name@, connector_prefix(card_no)),
    {
        starts_with(name, DrmConnector::prefix(card_no).as_str())
    }

    fn prefix(card_no: u32) -> (r: String)
        ensures
            r@ == connector_prefix(card_no),
    {
        let mut prefix: String = "card".to_owned();
        prefix.append(to_decimal(card_no as u64).as_str());
        prefix.append("-");
        prefix
    }

    /// The connector that the kernel describes, by what is below the directory of its card.
    pub fn from_connector_info(
        info: &ConnectorInfo,
        physical_address: PhysicalAddress,
        dir: Vec<Result<CardEntry, Error>>,
    ) -> (r: Result<DrmConnector, Error>)
        ensures
            match info {
                ConnectorInfo::DrmConnector { card_no, connector_id } => match looked_up(
                    *card_no,
                    *connector_id,
                    dir@,
                    0,
                ) {
                    LookUp::Found(k) => {
                        &&& r matches Ok(c)
                        &&& c.card == card_no && c.physical_address == physical_address
                        &&& dir@[k]->Ok_0.name@ == connector_prefix(*card_no) + c.connector@
                    },
                    LookUp::Misnamed(_) => r matches Err(e) && e@ == ErrorView::UnknownError(
                        "Invalid path"@,
                    ),
                    LookUp::Unreadable(k) => r == Err::<DrmConnector, Error>(
                        reading_error(dir@[k]),
                    ),
                    LookUp::Missing => r == Err::<DrmConnector, Error>(Error::SystemError(ENOENT)),
                },
                _ => r matches Err(e) && e@ == ErrorView::UnknownError("Not a DRM connector"@),
            },
    {
        let (card_no, id): (u32, u32) = match info {
            ConnectorInfo::DrmConnector { card_no, connector_id } => (*card_no, *connector_id),
            _ => return Err(Error::UnknownError("Not a DRM connector".to_owned())),
        };
        let prefix = DrmConnector::prefix(card_no);
        let ghost all = dir@;
        let mut entries = dir;
        let mut i: usize = 0;
        while i < entries.len()
            invariant
                i <= entries@.len(),
                entries@ == all,
                all == dir@,
                *info == (ConnectorInfo::DrmConnector { card_no, connector_id: id }),
                prefix@ == connector_prefix(card_no),
                looked_up(card_no, id, all, i as int) == looked_up(card_no, id, all, 0),
            decreases entries@.len() - i,
        {
            let unreadable = match &entries[i] {
                Ok(entry) => match strip_prefix(entry.name.as_str(), prefix.as_str()) {
                    Some(connector) => match &entry.connector_id {
                        Ok(Some(text)) => match parse_u32(trim(text.as_str())) {
                            Some(this_id) if this_id == id => {
                                assert(is_connector(all[i as int], card_no, id));
                                assert(!is_unreadable(all[i as int], card_no));
                                if !entry.is_text {
                                    return Err(Error::UnknownError("Invalid path".to_owned()));
                                }
                                return Ok(
                                    DrmConnector {
                                        card: card_no,
                                        connector: connector.to_owned(),
                                        physical_address,
                                    },
                                );
                            },
                            _ => false,
                        },
                        Ok(None) => false,
                        Err(_) => true,
                    },
                    None => false,
                },
                Err(_) => true,
            };
            assert(unreadable == is_unreadable(all[i as int], card_no));
            if unreadable {
                return match entries.swap_remove(i) {
                    Err(e) => Err(e),
                    Ok(entry) => match entry.connector_id {
                        Err(e) => Err(e),
                        Ok(_) => Err(Error::InvalidData),
                    },
                };
            }
            i += 1;
        }
        Err(Error::SystemError(ENOENT))
    }

    /// Whether the name of a directory may be that of a connector of some card.
    pub fn is_any_connector_name(name: &str) -> (r: bool)
        ensures
            r == (begins_with(name@, "card"@) && name@.contains('-')),
    {
        let hyphen = match split_once(name, '-') {
            Some((before, _)) => {
                assert(name@[before@.len() as int] == '-');
                true
            },
            None => false,
        };
        starts_with(name, "card") && hyphen
    }
}

/// A search for the one connector that has a physical address.
pub struct ConnectorSearch {
    pub found: Option<DrmConnector>,
    pub ambiguous: bool,
}

impl ConnectorSearch {
    /// Begin a search.
    pub fn new() -> (r: ConnectorSearch)
        ensures
            r.found is None,
            !r.ambiguous,
    {
        ConnectorSearch { found: None, ambiguous: false }
    }

    /// Add a connector with a physical address. A second one makes the search ambiguous.
    pub fn add_found(&mut self, connector: DrmConnector)
        ensures
            old(self).found is None ==> final(self).found == Some(connector)
                && final(self).ambiguous == old(self).ambiguous,
            old(self).found is Some ==> final(self).found == old(self).found
                && final(self).ambiguous,
    {
        if self.found.is_some() {
            self.ambiguous = true;
        } else {
            self.found = Some(connector);
        }
    }

    /// The connector, if there is just one.
    pub fn finish(self) -> (r: Option<DrmConnector>)
        ensures
            r == (if self.ambiguous {
                None
            } else {
                self.found
            }),
    {
        if self.ambiguous {
            None
        } else {
            self.found
        }
    }
}

/// A connector that is looked up describes itself as what was looked for: in its directory is the
/// file with its number. There is none to be found just where there is none with that number and
/// all can be read.
pub proof fn what_is_looked_up_describes_itself(
    card_no: u32,
    id: u32,
    dir: Seq<Result<CardEntry, Error>>,
    c: DrmConnector,
)
    requires
        c.card == card_no,
        looked_up(card_no, id, dir, 0) matches LookUp::Found(k) ==> dir[k]->Ok_0.name@
            == connector_prefix(card_no) + c.connector@,
    ensures
        match looked_up(card_no, id, dir, 0) {
            LookUp::Found(k) => {
                &&& 0 <= k < dir.len()
                &&& dir[k] matches Ok(entry) && entry.connector_id matches Ok(Some(text))
                    && c.path() == drm_dir() + "/"@ + entry.name@ && described(c.card, text@)
                    == Some(ConnectorInfo::DrmConnector { card_no, connector_id: id })
            },
            _ => true,
        },
        looked_up(card_no, id, dir, 0) is Missing <==> forall|k: int|
            0 <= k < dir.len() ==> !is_connector(#[trigger] dir[k], card_no, id) && !is_unreadable(
                dir[k],
                card_no,
            ),
{
    first_decides(card_no, id, dir, 0);
    reveal_strlit("/card");
    reveal_strlit("/");
    reveal_strlit("card");
    if let LookUp::Found(k) = looked_up(card_no, id, dir, 0) {
        assert("/card"@ =~= "/"@ + "card"@);
        assert(c.path() =~= drm_dir() + "/"@ + dir[k]->Ok_0.name@);
    }
}

proof fn first_decides(card_no: u32, id: u32, dir: Seq<Result<CardEntry, Error>>, from: int)
    requires
        0 <= from <= dir.len(),
    ensures
        match looked_up(card_no, id, dir, from) {
            LookUp::Found(k) => from <= k < dir.len() && is_connector(dir[k], card_no, id),
            LookUp::Misnamed(k) => from <= k < dir.len() && is_connector(dir[k], card_no, id),
            LookUp::Unreadable(k) => from <= k < dir.len() && is_unreadable(dir[k], card_no),
            LookUp::Missing => forall|k: int|
                from <= k < dir.len() ==> !is_connector(#[trigger] dir[k], card_no, id)
                    && !is_unreadable(dir[k], card_no),
        },
    decreases dir.len() - from,
{
    if from < dir.len() && !is_unreadable(dir[from], card_no) && !is_connector(
        dir[from],
        card_no,
        id,
    ) {
        first_decides(card_no, id, dir, from + 1);
    }
}

/// An address that is found in an EDID stands in it behind the identifier of HDMI, in an extension.
pub proof fn address_is_in_edid(edid: Seq<u8>, address: PhysicalAddress)
    requires
        address_in_extensions(edid, 128) == Some(address),
    ensures
        exists|at: int|
            {
                &&& 128 < at && at + 5 < edid.len()
                &&& #[trigger] edid.subrange(at, at + 3) == hdmi_oui()
                &&& address == PhysicalAddress(big_endian(edid[at + 3], edid[at + 4]))
            },
{
    found_in_extensions(edid, 128, address);
}

proof fn found_in_extensions(edid: Seq<u8>, block: int, address: PhysicalAddress)
    requires
        block >= 128,
        address_in_extensions(edid, block) == Some(address),
    ensures
        exists|at: int|
            {
                &&& 128 < at && at + 5 < edid.len()
                &&& #[trigger] edid.subrange(at, at + 3) == hdmi_oui()
                &&& address == PhysicalAddress(big_endian(edid[at + 3], edid[at + 4]))
            },
    decreases edid.len() - block,
{
    if !is_skipped(edid, block) && address_in_blocks(edid, block + 4, blocks_end(edid, block))
        is Some {
        found_in_blocks(edid, block + 4, blocks_end(edid, block), address);
    } else {
        found_in_extensions(edid, block + 128, address);
    }
}

proof fn found_in_blocks(edid: Seq<u8>, offset: int, end: int, address: PhysicalAddress)
    requires
        offset >= 128,
        end < edid.len(),
        address_in_blocks(edid, offset, end) == Some(address),
    ensures
        exists|at: int|
            {
                &&& 128 < at && at + 5 < edid.len()
                &&& #[trigger] edid.subrange(at, at + 3) == hdmi_oui()
                &&& address == PhysicalAddress(big_endian(edid[at + 3], edid[at + 4]))
            },
    decreases
            if offset < end {
                end - offset
            } else {
                0
            },
{
    let size = block_size(edid, offset);
    if size >= 6 && is_hdmi_block(edid, offset) {
        let at = offset + 1;
        assert(edid.subrange(at, at + 3) == hdmi_oui());
    } else {
        found_in_blocks(edid, offset + size, end, address);
    }
}

/// An EDID without room for an extension has no physical address.
pub proof fn no_address_without_extension(edid: Seq<u8>)
    requires
        edid.len() < 256,
    ensures
        address_in_extensions(edid, 128) is None,
{
}

/// Whether a data block is of the vendor specific kind, has the identifier of HDMI, and is big enough
/// for an address.
pub open spec fn tells_address(edid: Seq<u8>, at: int) -> bool {
    &&& edid[at] / 32 == 3 && edid[at] % 32 >= 5
    &&& edid[at + 1] == 0x03 && edid[at + 2] == 0x0c && edid[at + 3] == 0x00
}

/// Whether data blocks follow one on the other, each where the one before it ends, up to one before
/// a place that tells an address, and none before that one does.
pub open spec fn leads_to_address(edid: Seq<u8>, chain: Seq<int>, from: int, end: int) -> bool {
    &&& chain.len() > 0 && chain[0] == from
    &&& forall|i: int| #![trigger chain[i]]
        0 <= i < chain.len() - 1 ==> chain[i + 1] == chain[i] + 1 + edid[chain[i]] % 32
            && !tells_address(edid, chain[i])
    &&& tells_address(edid, chain.last())
    &&& chain.last() + 1 + edid[chain.last()] % 32 <= end
}

/// Where the data blocks of an extension end: where its third byte says, or at its checksum where
/// that is too small or too great for a place in the extension.
pub open spec fn last_end(edid: Seq<u8>, block: int) -> int {
    if 4 <= edid[block + 2] <= 127 {
        block + edid[block + 2]
    } else {
        block + 127
    }
}

/// Whether an extension of an EDID tells an address: it is one of CTA, or of the third version or a
/// later one, and its data blocks, which end where its third byte says, lead to the address.
pub open spec fn extension_tells(edid: Seq<u8>, block: int, address: PhysicalAddress) -> bool {
    &&& 128 <= block && block % 128 == 0 && block + 128 <= edid.len()
    &&& edid[block] == 2 || edid[block + 1] >= 3
    &&& exists|chain: Seq<int>| #[trigger]
        leads_to_address(edid, chain, block + 4, last_end(edid, block)) && address.0
            == edid[chain.last() + 4] * 256 + edid[chain.last() + 5]
}

/// The address in an EDID is that of the first extension that tells one, behind whatever other data
/// blocks there are. Where no extension tells one, there is none.
pub proof fn the_first_address_is_found(edid: Seq<u8>)
    ensures
        match address_in_extensions(edid, 128) {
            Some(address) => exists|block: int| #[trigger]
                extension_tells(edid, block, address) && forall|b: int, a: PhysicalAddress|
                    b < block ==> !#[trigger] extension_tells(edid, b, a),
            None => forall|b: int, a: PhysicalAddress| !#[trigger] extension_tells(edid, b, a),
        },
{
    first_extension(edid, 128);
}

proof fn first_extension(edid: Seq<u8>, block: int)
    requires
        block >= 128,
        block % 128 == 0,
    ensures
        match address_in_extensions(edid, block) {
            Some(address) => exists|b: int| #[trigger]
                extension_tells(edid, b, address) && b >= block && forall|
                    c: int,
                    a: PhysicalAddress,
                |
                    block <= c < b ==> !#[trigger] extension_tells(edid, c, a),
            None => forall|c: int, a: PhysicalAddress|
                c >= block ==> !#[trigger] extension_tells(edid, c, a),
        },
    decreases edid.len() - block,
{
    if block + 128 <= edid.len() {
        let end = last_end(edid, block);
        assert(end == blocks_end(edid, block));
        let here = address_in_blocks(edid, block + 4, end);
        if !is_skipped(edid, block) && here is Some {
            let address = here->Some_0;
            let chain = chain_to(edid, block + 4, end);
            assert(leads_to_address(edid, chain, block + 4, end));
            assert(extension_tells(edid, block, address));
        } else {
            assert forall|a: PhysicalAddress| !extension_tells(edid, block, a) by {
                if extension_tells(edid, block, a) {
                    let chain = choose|chain: Seq<int>| #[trigger]
                        leads_to_address(edid, chain, block + 4, end) && a.0 == edid[chain.last()
                            + 4] * 256 + edid[chain.last() + 5];
                    chain_is_followed(edid, chain, block + 4, end);
                }
            }
            first_extension(edid, block + 128);
            assert forall|c: int, a: PhysicalAddress| block <= c < block + 128
                implies !#[trigger] extension_tells(edid, c, a) by {
                if c != block {
                    assert(c % 128 != 0);
                }
            }
            match address_in_extensions(edid, block + 128) {
                Some(address) => {
                    let b = choose|b: int| #[trigger]
                        extension_tells(edid, b, address) && b >= block + 128 && forall|
                            c: int,
                            a: PhysicalAddress,
                        |
                            block + 128 <= c < b ==> !#[trigger] extension_tells(edid, c, a);
                    assert(extension_tells(edid, b, address));
                },
                None => {},
            }
        }
    }
}

/// A chain that leads to an address is followed.
proof fn chain_is_followed(edid: Seq<u8>, chain: Seq<int>, from: int, end: int)
    requires
        128 <= from,
        end < edid.len(),
        leads_to_address(edid, chain, from, end),
    ensures
        address_in_blocks(edid, from, end) is Some,
        address_in_blocks(edid, from, end)->Some_0.0 == edid[chain.last() + 4] * 256
            + edid[chain.last() + 5],
        from <= chain.last(),
    decreases chain.len(),
{
    if chain.len() == 1 {
        assert(edid.subrange(from + 1, from + 4) =~= hdmi_oui());
    } else {
        let rest = chain.skip(1);
        let next = from + 1 + edid[from] % 32;
        assert(chain[1] == next) by {
            assert(chain[0] == from);
        }
        assert(rest.last() == chain.last());
        assert forall|i: int| #![trigger rest[i]] 0 <= i < rest.len() - 1 implies rest[i + 1]
            == rest[i] + 1 + edid[rest[i]] % 32 && !tells_address(edid, rest[i]) by {
            assert(rest[i] == chain[i + 1]);
            assert(rest[i + 1] == chain[i + 1 + 1]);
        }
        chain_is_followed(edid, rest, next, end);
        assert(!tells_address(edid, chain[0]));
        if block_size(edid, from) >= 6 && is_hdmi_block(edid, from) {
            let oui = edid.subrange(from + 1, from + 4);
            assert(oui[0] == edid[from + 1] && oui[1] == edid[from + 2] && oui[2] == edid[from
                + 3]);
        }
    }
}

/// The chain that leads to the address that is found.
proof fn chain_to(edid: Seq<u8>, from: int, end: int) -> (chain: Seq<int>)
    requires
        128 <= from,
        end < edid.len(),
        address_in_blocks(edid, from, end) is Some,
    ensures
        leads_to_address(edid, chain, from, end),
        address_in_blocks(edid, from, end)->Some_0.0 == edid[chain.last() + 4] * 256
            + edid[chain.last() + 5],
    decreases
            if from < end {
                end - from
            } else {
                0
            },
{
    let size = block_size(edid, from);
    if size >= 6 && is_hdmi_block(edid, from) {
        let oui = edid.subrange(from + 1, from + 4);
        assert(oui[0] == edid[from + 1] && oui[1] == edid[from + 2] && oui[2] == edid[from + 3]);
        seq![from]
    } else {
        let rest = chain_to(edid, from + size, end);
        let chain = seq![from] + rest;
        assert(chain.last() == rest.last());
        if tells_address(edid, from) {
            assert(edid.subrange(from + 1, from + 4) =~= hdmi_oui());
        }
        assert forall|i: int| #![trigger chain[i]] 0 <= i < chain.len() - 1 implies chain[i + 1]
            == chain[i] + 1 + edid[chain[i]] % 32 && !tells_address(edid, chain[i]) by {
            assert(chain[i + 1] == rest[i]);
            if i > 0 {
                assert(chain[i] == rest[i - 1]);
            }
        }
        chain
    }
}

/// The name of a connector's directory is read back as the number of its card and the name of the
/// connector, and as nothing else.
pub proof fn names_of_connectors_are_read_back(card: u32, connector: Seq<char>)
    ensures
        name_parts("card"@ + decimal(card as nat) + "-"@ + connector, card, connector),
        forall|c: u32, other: Seq<char>| #[trigger]
            name_parts("card"@ + decimal(card as nat) + "-"@ + connector, c, other) ==> c == card
                && other == connector,
{
    let before = "card"@ + decimal(card as nat);
    let name = before + "-"@ + connector;
    reveal_strlit("card");
    reveal_strlit("-");
    crate::text::numerals_are_read(card as nat, Seq::empty(), 0);
    digits_only(card as nat);
    assert(name =~= before.push('-') + connector);
    assert(before.take(4) =~= "card"@);
    assert(card_numeral(before) =~= decimal(card as nat));
    assert forall|i: int| 0 <= i < before.len() implies before[i] != '-' by {
        if i >= 4 {
            assert(before[i] == decimal(card as nat)[i - 4]);
        }
    }
    assert forall|c: u32, other: Seq<char>| #[trigger] name_parts(name, c, other) implies c == card
        && other == connector by {
        let b = choose|b: Seq<char>|
            {
                &&& name == #[trigger] b.push('-') + other
                &&& !b.contains('-')
                &&& u32_value(card_numeral(b)) == Some(c as nat)
            };
        crate::text::split_is_unique('-', b, other, before, connector);
    }
}

proof fn digits_only(n: nat)
    ensures
        forall|i: int| 0 <= i < decimal(n).len() ==> '0' <= #[trigger] decimal(n)[i] <= '9',
    decreases n,
{
    if n >= 10 {
        digits_only(n / 10);
        assert forall|i: int| 0 <= i < decimal(n).len() implies '0' <= #[trigger] decimal(n)[i]
            <= '9' by {
            if i < decimal(n / 10).len() {
                assert(decimal(n)[i] == decimal(n / 10)[i]);
            }
        }
    }
}

/// What lies below the directory of connectors is among them, and the last element of its path is its
/// name. What lies elsewhere is not.
pub proof fn connectors_lie_in_their_directory(name: Seq<char>, path: Seq<char>)
    requires
        name.len() > 0,
        !name.contains('/'),
        name != "."@,
    ensures
        DrmConnector::is_drm_path("/sys/class/drm"@ + "/"@ + name),
        elements("/sys/class/drm"@ + "/"@ + name).last() == name,
        path.len() == 0 || path[0] != '/' ==> !DrmConnector::is_drm_path(path),
        elements(path).len() < 3 || elements(path).take(3) != seq!["sys"@, "class"@, "drm"@]
            ==> !DrmConnector::is_drm_path(path),
{
    reveal_strlit("/sys/class/drm");
    reveal_strlit("/");
    reveal_strlit(".");
    reveal_strlit("sys");
    reveal_strlit("class");
    reveal_strlit("drm");
    let full = "/sys/class/drm"@ + "/"@ + name;
    let root = Seq::<char>::empty();
    let three = "drm"@.push('/') + name;
    let two = "class"@.push('/') + three;
    let one = "sys"@.push('/') + two;
    assert(full =~= root.push('/') + one);
    crate::text::paths_are_split_at_slashes(root, one);
    crate::text::paths_are_split_at_slashes("sys"@, two);
    crate::text::paths_are_split_at_slashes("class"@, three);
    crate::text::paths_are_split_at_slashes("drm"@, name);
    crate::text::names_are_elements(root);
    crate::text::names_are_elements("sys"@);
    crate::text::names_are_elements("class"@);
    crate::text::names_are_elements("drm"@);
    crate::text::names_are_elements(name);
    assert(elements(full) =~= seq!["sys"@, "class"@, "drm"@, name]);
    if DrmConnector::is_drm_path(path) {
        assert(elements(path).take(3) =~= seq!["sys"@, "class"@, "drm"@]);
    }
}

/// A connector is known by the number of its card in its name and by its own number in its file,
/// which white space may surround. What goes by another name is passed over, whatever is in it.
pub proof fn connectors_are_known_by_their_numbers(
    entry: CardEntry,
    card_no: u32,
    id: u32,
    rest: Seq<char>,
    text: String,
    e: Error,
)
    ensures
        ({
            let prefix = "card"@ + decimal(card_no as nat) + "-"@;
            let of_card = entry.name@ == prefix + rest;
            let same_card = entry.name@.len() >= prefix.len() && entry.name@.take(
                prefix.len() as int,
            ) == prefix;
            &&& of_card && entry.connector_id == Ok::<Option<String>, Error>(Some(text)) && trimmed(
                text@,
            ) == decimal(id as nat) ==> is_connector(Ok(entry), card_no, id) && !is_unreadable(
                Ok(entry),
                card_no,
            )
            &&& of_card && entry.connector_id == Err::<Option<String>, Error>(e) ==> is_unreadable(
                Ok(entry),
                card_no,
            ) && reading_error(Ok(entry)) == e && !is_connector(Ok(entry), card_no, id)
            &&& !same_card ==> !is_connector(Ok(entry), card_no, id) && !is_unreadable(
                Ok(entry),
                card_no,
            )
            &&& entry.connector_id == Ok::<Option<String>, Error>(None) ==> !is_connector(
                Ok(entry),
                card_no,
                id,
            ) && !is_unreadable(Ok(entry), card_no)
            &&& is_unreadable(Err(e), card_no) && reading_error(Err(e)) == e && !is_connector(
                Err(e),
                card_no,
                id,
            )
        }),
{
    let prefix = "card"@ + decimal(card_no as nat) + "-"@;
    assert((prefix + rest).take(prefix.len() as int) =~= prefix);
    crate::text::numerals_are_read(id as nat, Seq::empty(), 0);
}

/// What comes first below the directory of a card decides: a connector with the number that is looked
/// for, whether its name is text or not, or what cannot be read.
pub proof fn the_first_connector_decides(
    card_no: u32,
    id: u32,
    dir: Seq<Result<CardEntry, Error>>,
    k: int,
)
    requires
        0 <= k < dir.len(),
        is_connector(dir[k], card_no, id) || is_unreadable(dir[k], card_no),
        forall|j: int|
            0 <= j < k ==> !is_connector(#[trigger] dir[j], card_no, id) && !is_unreadable(
                dir[j],
                card_no,
            ),
    ensures
        is_unreadable(dir[k], card_no) ==> looked_up(card_no, id, dir, 0) == LookUp::Unreadable(k),
        !is_unreadable(dir[k], card_no) && (dir[k] matches Ok(entry) && entry.is_text) ==> looked_up(
            card_no,
            id,
            dir,
            0,
        ) == LookUp::Found(k),
        !is_unreadable(dir[k], card_no) && (dir[k] matches Ok(entry) && !entry.is_text)
            ==> looked_up(card_no, id, dir, 0) == LookUp::Misnamed(k),
{
    skips_to(card_no, id, dir, 0, k);
}

proof fn skips_to(card_no: u32, id: u32, dir: Seq<Result<CardEntry, Error>>, from: int, k: int)
    requires
        0 <= from <= k < dir.len(),
        forall|j: int|
            from <= j < k ==> !is_connector(#[trigger] dir[j], card_no, id) && !is_unreadable(
                dir[j],
                card_no,
            ),
    ensures
        looked_up(card_no, id, dir, from) == looked_up(card_no, id, dir, k),
    decreases k - from,
{
    if from < k {
        skips_to(card_no, id, dir, from + 1, k);
    }
}

/// What is not there has the number 2 among errors.
pub proof fn missing_connectors_have_a_number()
    ensures
        ENOENT == 2,
{
}

/// A connector is described by the number of its card and the number in its file.
pub proof fn connectors_are_described_by_their_numbers(card: u32, id: u32, text: Seq<char>)
    ensures
        trimmed(text) == decimal(id as nat) ==> described(card, text) == Some(
            ConnectorInfo::DrmConnector { card_no: card, connector_id: id },
        ),
        u32_value(trimmed(text)) is None ==> described(card, text) is None,
{
    crate::text::numerals_are_read(id as nat, Seq::empty(), 0);
}

} // verus!
