//! Device enumeration and selection without opening hardware.

use crate::errors::{Error, Result};
use vstd::prelude::*;

verus! {

/// Vendor ID of standard receivers.
pub const STANDARD_VID: u16 = 0x0bda;

/// What an enumeration reports of one USB device.
#[derive(Debug, Eq, PartialEq)]
pub struct UsbIdentity {
    /// USB vendor ID.
    pub vid: u16,
    /// USB product ID.
    pub pid: u16,
    /// Device serial string, when the OS/browser supplies it.
    pub serial: Option<String>,
    /// Manufacturer string, when available.
    pub manufacturer: Option<String>,
    /// Product string, when available.
    pub product: Option<String>,
}

/// The content of a [`UsbIdentity`].
#[verifier::ext_equal]
pub struct Identity {
    /// USB vendor ID.
    pub vid: u16,
    /// USB product ID.
    pub pid: u16,
    /// Device serial string.
    pub serial: Option<Seq<char>>,
    /// Manufacturer string.
    pub manufacturer: Option<Seq<char>>,
    /// Product string.
    pub product: Option<Seq<char>>,
}

/// USB identity collected during enumeration.
#[derive(Debug, Eq, PartialEq)]
pub struct DeviceDescriptor {
    /// Index among currently visible devices with the selected USB IDs.
    pub index: usize,
    /// USB vendor ID.
    pub vid: u16,
    /// USB product ID.
    pub pid: u16,
    /// Device serial string, when the OS/browser supplies it.
    pub serial: Option<String>,
    /// Manufacturer string, when available.
    pub manufacturer: Option<String>,
    /// Product string, when available.
    pub product: Option<String>,
}

/// The content of a [`DeviceDescriptor`].
#[verifier::ext_equal]
pub struct Description {
    /// Index among currently visible devices with the selected USB IDs.
    pub index: usize,
    /// USB identity.
    pub identity: Identity,
}

/// The characters of an optional text.
pub open spec fn text(value: Option<String>) -> Option<Seq<char>> {
    match value {
        Some(value) => Some(value@),
        None => None,
    }
}

impl View for UsbIdentity {
    type V = Identity;

    open spec fn view(&self) -> Identity {
        Identity {
            vid: self.vid,
            pid: self.pid,
            serial: text(self.serial),
            manufacturer: text(self.manufacturer),
            product: text(self.product),
        }
    }
}

impl View for DeviceDescriptor {
    type V = Description;

    open spec fn view(&self) -> Description {
        Description {
            index: self.index,
            identity: Identity {
                vid: self.vid,
                pid: self.pid,
                serial: text(self.serial),
                manufacturer: text(self.manufacturer),
                product: text(self.product),
            },
        }
    }
}

impl Description {
    /// Whether USB branding identifies an RTL-SDR Blog V4.
    pub open spec fn blog_v4(self) -> bool {
        self.identity.manufacturer == Some("RTLSDRBlog"@) && self.identity.product == Some(
            "Blog V4"@,
        )
    }
}

/// A copy of an optional text.
fn copy_text(value: &Option<String>) -> (copy: Option<String>)
    ensures
        text(copy) == text(*value),
{
    match value {
        Some(value) => Some(value.clone()),
        None => None,
    }
}

/// Whether an optional text is there and equals `expected`.
fn text_is(value: &Option<String>, expected: &String) -> (result: bool)
    ensures
        result == (text(*value) == Some(expected@)),
{
    match value {
        Some(value) => *value == *expected,
        None => false,
    }
}

impl Clone for DeviceDescriptor {
    fn clone(&self) -> (copy: Self)
        ensures
            copy@ == self@,
    {
        DeviceDescriptor {
            index: self.index,
            vid: self.vid,
            pid: self.pid,
            serial: copy_text(&self.serial),
            manufacturer: copy_text(&self.manufacturer),
            product: copy_text(&self.product),
        }
    }
}

impl DeviceDescriptor {
    /// Describe the device that is found at an index.
    pub fn from_identity(index: usize, identity: &UsbIdentity) -> (descriptor: DeviceDescriptor)
        ensures
            descriptor@ == (Description { index, identity: identity@ }),
    {
        DeviceDescriptor {
            index,
            vid: identity.vid,
            pid: identity.pid,
            serial: copy_text(&identity.serial),
            manufacturer: copy_text(&identity.manufacturer),
            product: copy_text(&identity.product),
        }
    }

    /// Whether USB branding identifies an RTL-SDR Blog V4.
    pub fn blog_v4(&self) -> (result: bool)
        ensures
            result == self@.blog_v4(),
    {
        let manufacturer: String = "RTLSDRBlog".to_owned();
        let product: String = "Blog V4".to_owned();
        text_is(&self.manufacturer, &manufacturer) && text_is(&self.product, &product)
    }
}

/// Which device to open.
#[derive(Debug)]
pub struct Selector {
    /// Index among the devices with the selected USB IDs.
    pub index: Option<usize>,
    /// Exact serial string.
    pub serial: Option<String>,
    /// USB vendor and product ID in place of the standard ones.
    pub usb_id: Option<(u16, u16)>,
}

/// The content of a [`Selector`].
#[verifier::ext_equal]
pub struct Selection {
    /// Index among the devices with the selected USB IDs.
    pub index: Option<usize>,
    /// Exact serial string.
    pub serial: Option<Seq<char>>,
    /// USB vendor and product ID in place of the standard ones.
    pub usb_id: Option<(u16, u16)>,
}

impl View for Selector {
    type V = Selection;

    open spec fn view(&self) -> Selection {
        Selection { index: self.index, serial: text(self.serial), usb_id: self.usb_id }
    }
}

impl Selection {
    /// The selection of any standard receiver.
    pub open spec fn any() -> Selection {
        Selection { index: None, serial: None, usb_id: None }
    }

    /// Whether a device has the selected USB IDs, `0bda:2832` or `0bda:2838` by default.
    pub open spec fn matches_id(self, vid: u16, pid: u16) -> bool {
        match self.usb_id {
            Some(pair) => pair == (vid, pid),
            None => vid == STANDARD_VID && (pid == 0x2832 || pid == 0x2838),
        }
    }

    /// Whether a device with the selected USB IDs is the selected one.
    pub open spec fn matches(self, index: int, identity: Identity) -> bool {
        &&& self.index matches Some(i) ==> i == index
        &&& self.serial is Some ==> identity.serial == self.serial
    }

    /// Positions of the devices with the selected USB IDs among the first `count` of an
    /// enumeration, in order.
    pub open spec fn positions(self, found: Seq<Identity>, count: nat) -> Seq<int>
        decreases count,
    {
        if count == 0 {
            Seq::empty()
        } else {
            let front = self.positions(found, (count - 1) as nat);
            let last = found[count - 1];
            if self.matches_id(last.vid, last.pid) {
                front.push(count - 1)
            } else {
                front
            }
        }
    }

    /// Whether position `at` of an enumeration holds the first selected device, which is number
    /// `index` among those with the selected USB IDs.
    pub open spec fn selects(self, found: Seq<Identity>, at: int, index: int) -> bool {
        let positions = self.positions(found, found.len());
        &&& 0 <= index < positions.len()
        &&& positions[index] == at
        &&& self.matches(index, found[at])
        &&& forall|i: int|
            0 <= i < index ==> !self.matches(i, found[#[trigger] positions[i]])
    }

    /// Whether an enumeration holds no selected device.
    pub open spec fn selects_none(self, found: Seq<Identity>) -> bool {
        let positions = self.positions(found, found.len());
        forall|i: int|
            0 <= i < positions.len() ==> !self.matches(i, found[#[trigger] positions[i]])
    }
}

/// The contents of an enumeration.
pub open spec fn identities(found: Seq<UsbIdentity>) -> Seq<Identity> {
    found.map_values(|identity: UsbIdentity| identity@)
}

impl Default for Selector {
    fn default() -> (selector: Selector)
        ensures
            selector@ == Selection::any(),
    {
        Selector { index: None, serial: None, usb_id: None }
    }
}

impl Clone for Selector {
    fn clone(&self) -> (copy: Self)
        ensures
            copy@ == self@,
    {
        Selector {
            index: self.index,
            serial: copy_text(&self.serial),
            usb_id: self.usb_id,
        }
    }
}

impl Selector {
    /// Whether a device has the selected USB IDs.
    pub fn matches_id(&self, vid: u16, pid: u16) -> (result: bool)
        ensures
            result == self@.matches_id(vid, pid),
    {
        match self.usb_id {
            Some((v, p)) => v == vid && p == pid,
            None => vid == STANDARD_VID && (pid == 0x2832 || pid == 0x2838),
        }
    }

    /// Whether a device with the selected USB IDs is the selected one.
    pub fn matches(&self, index: usize, identity: &UsbIdentity) -> (result: bool)
        ensures
            result == self@.matches(index as int, identity@),
    {
        if let Some(i) = self.index {
            if i != index {
                return false;
            }
        }
        match &self.serial {
            Some(serial) => text_is(&identity.serial, serial),
            None => true,
        }
    }

    /// The USB IDs to ask permission for.
    pub fn permission_ids(&self) -> (pairs: Vec<(u16, u16)>)
        ensures
            pairs@ == match self@.usb_id {
                Some(pair) => seq![pair],
                None => seq![(STANDARD_VID, 0x2832u16), (STANDARD_VID, 0x2838u16)],
            },
    {
        let pairs: Vec<(u16, u16)> = match self.usb_id {
            Some(pair) => vec![pair],
            None => vec![(STANDARD_VID, 0x2832u16), (STANDARD_VID, 0x2838u16)],
        };
        assert(pairs@ =~= match self@.usb_id {
            Some(pair) => seq![pair],
            None => seq![(STANDARD_VID, 0x2832u16), (STANDARD_VID, 0x2838u16)],
        });
        pairs
    }
}

/// Describe the standard receivers of an enumeration, in order.
pub fn list(found: &Vec<UsbIdentity>) -> (descriptors: Vec<DeviceDescriptor>)
    ensures
        ({
            let positions = Selection::any().positions(identities(found@), found@.len());
            &&& descriptors@.len() == positions.len()
            &&& forall|i: int|
                0 <= i < positions.len() ==> (#[trigger] descriptors@[i])@ == (Description {
                    index: i as usize,
                    identity: found@[positions[i]]@,
                })
        }),
{
    let selector = Selector::default();
    let mut descriptors: Vec<DeviceDescriptor> = Vec::new();
    let mut i: usize = 0;
    let ghost all = identities(found@);
    while i < found.len()
        invariant
            selector@ == Selection::any(),
            all == identities(found@),
            i <= found@.len(),
            ({
                let positions = selector@.positions(all, i as nat);
                &&& descriptors@.len() == positions.len() <= i
                &&& forall|k: int|
                    0 <= k < positions.len() ==> (#[trigger] descriptors@[k])@ == (Description {
                        index: k as usize,
                        identity: found@[positions[k]]@,
                    })
            }),
        decreases found@.len() - i,
    {
        assert(all[i as int] == found@[i as int]@);
        if selector.matches_id(found[i].vid, found[i].pid) {
            let index: usize = descriptors.len();
            descriptors.push(DeviceDescriptor::from_identity(index, &found[i]));
        }
        i = i + 1;
    }
    descriptors
}

/// Find the selected device in an enumeration. The result is its description and its position.
pub fn select(selector: &Selector, found: &Vec<UsbIdentity>) -> (result: Result<
    (DeviceDescriptor, usize),
>)
    ensures
        match result {
            Ok((descriptor, at)) => at < found@.len() && selector@.selects(
                identities(found@),
                at as int,
                descriptor@.index as int,
            ) && descriptor@.identity == found@[at as int]@,
            Err(error) => error == Error::DeviceNotFound && selector@.selects_none(
                identities(found@),
            ),
        },
{
    let mut index: usize = 0;
    let mut i: usize = 0;
    let ghost all = identities(found@);
    let ghost positions = selector@.positions(all, all.len());
    while i < found.len()
        invariant
            all == identities(found@),
            positions == selector@.positions(all, all.len()),
            i <= found@.len(),
            index == selector@.positions(all, i as nat).len(),
            index <= i,
            forall|k: int|
                0 <= k < index ==> !selector@.matches(k, all[#[trigger] positions[k]]),
        decreases found@.len() - i,
    {
        assert(all[i as int] == found@[i as int]@);
        if selector.matches_id(found[i].vid, found[i].pid) {
            proof {
                lemma_positions_extend(selector@, all, i + 1);
                assert(selector@.positions(all, (i + 1) as nat)[index as int] == i);
            }
            if selector.matches(index, &found[i]) {
                return Ok((DeviceDescriptor::from_identity(index, &found[i]), i));
            }
            index = index + 1;
        }
        i = i + 1;
    }
    Err(Error::DeviceNotFound)
}

proof fn lemma_positions_extend(selection: Selection, found: Seq<Identity>, count: int)
    requires
        0 <= count <= found.len(),
    ensures
        selection.positions(found, count as nat).is_prefix_of(
            selection.positions(found, found.len()),
        ),
    decreases found.len() - count,
{
    if count < found.len() {
        lemma_positions_extend(selection, found, count + 1);
    }
}

/// The positions that a selection finds are those of the devices with the selected USB IDs, each
/// once, in order.
pub proof fn positions_are_the_matching_ones(selection: Selection, found: Seq<Identity>, count: nat)
    requires
        count <= found.len(),
    ensures
        ({
            let positions = selection.positions(found, count);
            &&& forall|i: int, j: int|
                0 <= i < j < positions.len() ==> #[trigger] positions[i] < #[trigger] positions[j]
            &&& forall|at: int|
                0 <= at < count ==> (#[trigger] positions.contains(at) <==> selection.matches_id(
                    found[at].vid,
                    found[at].pid,
                ))
            &&& forall|i: int| 0 <= i < positions.len() ==> 0 <= #[trigger] positions[i] < count
        }),
    decreases count,
{
    if count > 0 {
        positions_are_the_matching_ones(selection, found, (count - 1) as nat);
        let front = selection.positions(found, (count - 1) as nat);
        let positions = selection.positions(found, count);
        assert forall|at: int| 0 <= at < count implies (#[trigger] positions.contains(at)
            <==> selection.matches_id(found[at].vid, found[at].pid)) by {
            if at == count - 1 {
                if positions.len() > front.len() {
                    assert(positions[front.len() as int] == at);
                }
            } else {
                assert(front.contains(at) <==> positions.contains(at)) by {
                    if front.contains(at) {
                        let i = front.index_of(at);
                        assert(positions[i] == at);
                    }
                    if positions.contains(at) {
                        let i = positions.index_of(at);
                        assert(front[i] == at);
                    }
                }
            }
        }
    }
}

/// Standard receivers are `0bda:2832` and `0bda:2838`; a chosen pair of USB IDs takes their place.
pub proof fn standard_receivers_have_realtek_ids(selection: Selection, vid: u16, pid: u16)
    ensures
        selection.usb_id is None ==> (selection.matches_id(vid, pid) <==> vid == 0x0bda && (pid
            == 0x2832 || pid == 0x2838)),
        selection.usb_id matches Some((v, p)) ==> (selection.matches_id(vid, pid) <==> v == vid && p
            == pid),
        Selection::any().usb_id is None && Selection::any().index is None && Selection::any().serial is None,
{
}

/// A board is a Blog V4 if its manufacturer and its product are both named as that.
pub proof fn boards_are_told_by_both_names(description: Description)
    ensures
        description.blog_v4() <==> description.identity.manufacturer == Some("RTLSDRBlog"@)
            && description.identity.product == Some("Blog V4"@),
{
}

/// A selected device has the selected USB IDs, serial and index. Its index is the number of devices
/// with these IDs before it, and none of them has the selected serial and index.
pub proof fn selected_devices_are_the_first_that_fit(
    selection: Selection,
    found: Seq<Identity>,
    at: int,
    index: int,
)
    requires
        selection.selects(found, at, index),
    ensures
        0 <= at < found.len(),
        selection.matches_id(found[at].vid, found[at].pid),
        selection.serial is Some ==> found[at].serial == selection.serial,
        selection.index matches Some(chosen) ==> chosen == index,
        forall|earlier: int|
            0 <= earlier < at && selection.index is None && selection.matches_id(
                (#[trigger] found[earlier]).vid,
                found[earlier].pid,
            ) ==> selection.serial is Some && found[earlier].serial != selection.serial,
        selection.index is None && selection.serial is None ==> index == 0,
{
    let positions = selection.positions(found, found.len());
    positions_are_the_matching_ones(selection, found, found.len());
    assert(positions.contains(at)) by {
        assert(positions[index] == at);
    }
    assert forall|earlier: int|
        0 <= earlier < at && selection.index is None && selection.matches_id(
            (#[trigger] found[earlier]).vid,
            found[earlier].pid,
        ) implies selection.serial is Some && found[earlier].serial != selection.serial by {
        assert(positions.contains(earlier));
        let i = choose|i: int| 0 <= i < positions.len() && positions[i] == earlier;
        if i >= index {
            assert(i == index || positions[index] < positions[i]);
        }
        assert(!selection.matches(i, found[positions[i]]));
    }
    if selection.index is None && selection.serial is None && index > 0 {
        assert(!selection.matches(0, found[positions[0]]));
    }
}

/// A device is selected whenever one fits: an enumeration that holds a device with the selected USB
/// IDs and serial is not without a selected one, unless an index is chosen.
pub proof fn fitting_devices_are_selected(selection: Selection, found: Seq<Identity>, at: int)
    requires
        0 <= at < found.len(),
        selection.index is None,
        selection.matches_id(found[at].vid, found[at].pid),
        selection.serial is Some ==> found[at].serial == selection.serial,
    ensures
        !selection.selects_none(found),
{
    let positions = selection.positions(found, found.len());
    positions_are_the_matching_ones(selection, found, found.len());
    assert(positions.contains(at));
    let i = choose|i: int| 0 <= i < positions.len() && positions[i] == at;
    assert(selection.matches(i, found[positions[i]]));
}

} // verus!
