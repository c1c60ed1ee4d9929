//! USB descriptors as carried in captured data, and the list of descriptors
//! the descriptor view shows.
//!
//! A descriptor is framed by its first two bytes, bLength and
//! bDescriptorType; bLength counts the whole descriptor.

use vstd::prelude::*;
use crate::bytes::copy_range;

verus! {

/// Model of a descriptor.
pub struct DescriptorModel {
    pub length: u8,
    pub descriptor_type: u8,
    pub data: Seq<u8>,
}

/// A descriptor: its bLength, its bDescriptorType and the bytes after those two.
pub struct USBDescriptor {
    pub length: u8,
    pub descriptor_type: u8,
    pub data: Vec<u8>,
}

impl View for USBDescriptor {
    type V = DescriptorModel;

    open spec fn view(&self) -> DescriptorModel {
        DescriptorModel { length: self.length, descriptor_type: self.descriptor_type, data: self.data@ }
    }
}

/// Descriptors framed from one capture.
pub struct DecodedUSBData {
    pub descriptors: Vec<USBDescriptor>,
}

/// Model of a list of descriptors.
pub open spec fn descriptors_model(v: Seq<USBDescriptor>) -> Seq<DescriptorModel> {
    Seq::new(v.len(), |i: int| v[i]@)
}

impl View for DecodedUSBData {
    type V = Seq<DescriptorModel>;

    open spec fn view(&self) -> Seq<DescriptorModel> {
        descriptors_model(self.descriptors@)
    }
}

impl USBDescriptor {
    /// A copy of the descriptor.
    pub fn clone_descriptor(&self) -> (d: USBDescriptor)
        ensures
            d@ == self@,
    {
        let data = copy_range(self.data.as_slice(), 0, self.data.len());
        assert(self.data@.subrange(0, self.data@.len() as int) =~= self.data@);
        USBDescriptor { length: self.length, descriptor_type: self.descriptor_type, data }
    }

    /// Whether two descriptors are the same, field by field.
    pub fn same_as(&self, other: &USBDescriptor) -> (b: bool)
        ensures
            b == (self@ == other@),
    {
        if self.length != other.length || self.descriptor_type != other.descriptor_type
            || self.data.len() != other.data.len() {
            return false;
        }
        let mut i: usize = 0;
        while i < self.data.len()
            invariant
                i <= self.data@.len(),
                self.data@.len() == other.data@.len(),
                forall|k: int| 0 <= k < i ==> self.data@[k] == other.data@[k],
            decreases self.data@.len() - i,
        {
            if self.data[i] != other.data[i] {
                return false;
            }
            i += 1;
        }
        assert(self.data@ =~= other.data@);
        true
    }
}

/// A copy of a list of descriptors.
pub fn clone_descriptors(v: &Vec<USBDescriptor>) -> (r: Vec<USBDescriptor>)
    ensures
        descriptors_model(r@) == descriptors_model(v@),
{
    let mut r: Vec<USBDescriptor> = Vec::new();
    let mut i: usize = 0;
    while i < v.len()
        invariant
            i <= v@.len(),
            descriptors_model(r@) == descriptors_model(v@.subrange(0, i as int)),
        decreases v@.len() - i,
    {
        let ghost before = descriptors_model(r@);
        r.push(v[i].clone_descriptor());
        assert(descriptors_model(r@) =~= before.push(v@[i as int]@));
        i += 1;
        assert(descriptors_model(r@) =~= descriptors_model(v@.subrange(0, i as int)));
    }
    assert(v@.subrange(0, v@.len() as int) =~= v@);
    r
}

impl DecodedUSBData {
    /// A copy of the decoded data.
    pub fn clone_data(&self) -> (d: DecodedUSBData)
        ensures
            d@ == self@,
    {
        DecodedUSBData { descriptors: clone_descriptors(&self.descriptors) }
    }
}

/// The descriptors framed one after another from `offset` on, until fewer
/// than two bytes remain or a bLength is below two or runs past the end.
pub open spec fn spec_frame_descriptors(b: Seq<u8>, offset: int) -> Seq<DescriptorModel>
    decreases b.len() - offset,
{
    if offset < 0 || offset + 2 > b.len() {
        Seq::empty()
    } else if (b[offset] as int) < 2 || offset + b[offset] as int > b.len() {
        Seq::empty()
    } else {
        seq![DescriptorModel {
            length: b[offset],
            descriptor_type: b[offset + 1],
            data: b.subrange(offset + 2, offset + b[offset] as int),
        }] + spec_frame_descriptors(b, offset + b[offset] as int)
    }
}

/// Frames the descriptors in captured bytes; `None` when no descriptor is framed.
pub fn decode_descriptors(bytes: &[u8]) -> (r: Option<DecodedUSBData>)
    ensures
        spec_frame_descriptors(bytes@, 0).len() == 0 <==> r is None,
        r matches Some(d) ==> d@ == spec_frame_descriptors(bytes@, 0),
{
    let mut descriptors: Vec<USBDescriptor> = Vec::new();
    let mut offset: usize = 0;
    let mut stopped = false;
    while !stopped && bytes.len() - offset >= 2
        invariant
            offset <= bytes@.len(),
            stopped ==> descriptors_model(descriptors@) == spec_frame_descriptors(bytes@, 0),
            !stopped ==> descriptors_model(descriptors@) + spec_frame_descriptors(bytes@, offset as int)
                == spec_frame_descriptors(bytes@, 0),
        decreases bytes@.len() - offset, if stopped { 0int } else { 1int },
    {
        let len = bytes[offset] as usize;
        if len < 2 || len > bytes.len() - offset {
            assert(descriptors_model(descriptors@) =~= descriptors_model(descriptors@) + spec_frame_descriptors(bytes@, offset as int));
            stopped = true;
        } else {
            let ghost before = descriptors_model(descriptors@);
            descriptors.push(USBDescriptor {
                length: bytes[offset],
                descriptor_type: bytes[offset + 1],
                data: copy_range(bytes, offset + 2, offset + len),
            });
            assert(descriptors_model(descriptors@) =~= before.push(descriptors@.last()@));
            assert(before + spec_frame_descriptors(bytes@, offset as int)
                =~= descriptors_model(descriptors@) + spec_frame_descriptors(bytes@, (offset + len) as int));
            offset = offset + len;
        }
    }
    if !stopped {
        assert(descriptors_model(descriptors@) =~= descriptors_model(descriptors@) + spec_frame_descriptors(bytes@, offset as int));
    }
    if descriptors.len() == 0 {
        None
    } else {
        Some(DecodedUSBData { descriptors })
    }
}

/// `list` with each of `items` appended in turn unless an equal descriptor is
/// already there.
pub open spec fn spec_add_unique(list: Seq<DescriptorModel>, items: Seq<DescriptorModel>) -> Seq<DescriptorModel>
    decreases items.len(),
{
    if items.len() == 0 {
        list
    } else {
        let l = spec_add_unique(list, items.drop_last());
        if l.contains(items.last()) { l } else { l.push(items.last()) }
    }
}

/// Messages the descriptor view handles.
pub enum DescriptorMessage {
    DescriptorSelected(usize),
    ClearDescriptors,
    ToggleDarkMode(bool),
}

/// Model of the descriptor view.
pub struct DescriptorViewModel {
    pub descriptors: Seq<DescriptorModel>,
    pub selected: Option<usize>,
    pub decoded: Seq<Seq<DescriptorModel>>,
    pub dark_mode: bool,
}

/// The descriptors seen so far, each once, and the one selected.
pub struct DescriptorView {
    descriptors: Vec<USBDescriptor>,
    selected_descriptor: Option<usize>,
    decoded_data: Vec<DecodedUSBData>,
    dark_mode: bool,
}

/// Model of a list of decoded captures.
pub open spec fn decoded_model(v: Seq<DecodedUSBData>) -> Seq<Seq<DescriptorModel>> {
    Seq::new(v.len(), |i: int| v[i]@)
}

/// The view after a message.
pub open spec fn spec_descriptor_update(v: DescriptorViewModel, m: DescriptorMessage) -> DescriptorViewModel {
    match m {
        DescriptorMessage::DescriptorSelected(i) => DescriptorViewModel { selected: Some(i), ..v },
        DescriptorMessage::ClearDescriptors => DescriptorViewModel {
            descriptors: Seq::empty(),
            selected: None,
            decoded: Seq::empty(),
            dark_mode: v.dark_mode,
        },
        DescriptorMessage::ToggleDarkMode(b) => DescriptorViewModel { dark_mode: b, ..v },
    }
}

/// The view after the descriptors of a capture come in: the capture is
/// remembered, each descriptor not already shown is added, and the first
/// descriptor is selected if none was.
pub open spec fn spec_descriptors_update(v: DescriptorViewModel, items: Seq<DescriptorModel>) -> DescriptorViewModel {
    let descriptors = spec_add_unique(v.descriptors, items);
    DescriptorViewModel {
        descriptors,
        selected: if v.selected is None && descriptors.len() > 0 { Some(0usize) } else { v.selected },
        decoded: v.decoded.push(items),
        dark_mode: v.dark_mode,
    }
}

impl View for DescriptorView {
    type V = DescriptorViewModel;

    closed spec fn view(&self) -> DescriptorViewModel {
        DescriptorViewModel {
            descriptors: descriptors_model(self.descriptors@),
            selected: self.selected_descriptor,
            decoded: decoded_model(self.decoded_data@),
            dark_mode: self.dark_mode,
        }
    }
}

impl DescriptorView {
    /// An empty view in dark mode.
    pub fn new() -> (v: DescriptorView)
        ensures
            v@ == (DescriptorViewModel { descriptors: Seq::empty(), selected: None, decoded: Seq::empty(), dark_mode: true }),
    {
        let v = DescriptorView { descriptors: Vec::new(), selected_descriptor: None, decoded_data: Vec::new(), dark_mode: true };
        assert(descriptors_model(v.descriptors@) =~= Seq::<DescriptorModel>::empty());
        assert(decoded_model(v.decoded_data@) =~= Seq::<Seq<DescriptorModel>>::empty());
        v
    }

    /// The descriptors shown.
    pub fn descriptors(&self) -> (d: &Vec<USBDescriptor>)
        ensures
            descriptors_model(d@) == self@.descriptors,
    {
        &self.descriptors
    }

    /// The index of the selected descriptor.
    pub fn selected_descriptor(&self) -> (s: Option<usize>)
        ensures
            s == self@.selected,
    {
        self.selected_descriptor
    }

    /// Whether the view is in dark mode.
    pub fn dark_mode(&self) -> (b: bool)
        ensures
            b == self@.dark_mode,
    {
        self.dark_mode
    }

    /// Forgets every descriptor and the selection.
    pub fn clear(&mut self)
        ensures
            final(self)@ == (DescriptorViewModel {
                descriptors: Seq::empty(),
                selected: None,
                decoded: Seq::empty(),
                dark_mode: old(self)@.dark_mode,
            }),
    {
        self.descriptors.clear();
        self.decoded_data.clear();
        self.selected_descriptor = None;
        assert(descriptors_model(self.descriptors@) =~= Seq::<DescriptorModel>::empty());
        assert(decoded_model(self.decoded_data@) =~= Seq::<Seq<DescriptorModel>>::empty());
    }

    /// Handles a message of the view.
    pub fn update(&mut self, message: DescriptorMessage)
        ensures
            final(self)@ == spec_descriptor_update(old(self)@, message),
    {
        match message {
            DescriptorMessage::DescriptorSelected(index) => {
                self.selected_descriptor = Some(index);
            },
            DescriptorMessage::ClearDescriptors => {
                self.clear();
            },
            DescriptorMessage::ToggleDarkMode(enabled) => {
                self.dark_mode = enabled;
            },
        }
    }

    /// Whether an equal descriptor is already shown.
    fn has_descriptor(&self, d: &USBDescriptor) -> (b: bool)
        ensures
            b == descriptors_model(self.descriptors@).contains(d@),
    {
        let ghost m = descriptors_model(self.descriptors@);
        let mut i: usize = 0;
        while i < self.descriptors.len()
            invariant
                i <= self.descriptors@.len(),
                m == descriptors_model(self.descriptors@),
                forall|k: int| 0 <= k < i ==> m[k] != d@,
            decreases self.descriptors@.len() - i,
        {
            if self.descriptors[i].same_as(d) {
                assert(m[i as int] == d@);
                return true;
            }
            i += 1;
        }
        false
    }

    /// Takes in the descriptors of a new capture: remembers the capture,
    /// adds each descriptor not already shown, and selects the first
    /// descriptor if none is selected.
    pub fn update_descriptors(&mut self, decoded_data: DecodedUSBData)
        ensures
            final(self)@.decoded == old(self)@.decoded.push(decoded_data@),
            final(self)@.descriptors == spec_add_unique(old(self)@.descriptors, decoded_data@),
            final(self)@.selected == (if old(self)@.selected is None && final(self)@.descriptors.len() > 0 {
                Some(0usize)
            } else {
                old(self)@.selected
            }),
            final(self)@.dark_mode == old(self)@.dark_mode,
            final(self)@ == spec_descriptors_update(old(self)@, decoded_data@),
    {
        let ghost items = decoded_data@;
        let ghost start = descriptors_model(self.descriptors@);
        let ghost old_decoded = decoded_model(self.decoded_data@);
        self.decoded_data.push(decoded_data.clone_data());
        assert(decoded_model(self.decoded_data@) =~= old_decoded.push(items));
        let mut i: usize = 0;
        while i < decoded_data.descriptors.len()
            invariant
                i <= decoded_data.descriptors@.len(),
                items == decoded_data@,
                descriptors_model(self.descriptors@) == spec_add_unique(start, items.subrange(0, i as int)),
                decoded_model(self.decoded_data@) == old_decoded.push(items),
                self.selected_descriptor == old(self).selected_descriptor,
                self.dark_mode == old(self).dark_mode,
            decreases decoded_data.descriptors@.len() - i,
        {
            let d = &decoded_data.descriptors[i];
            let ghost before = descriptors_model(self.descriptors@);
            assert(items.subrange(0, i + 1).drop_last() =~= items.subrange(0, i as int));
            assert(items.subrange(0, i + 1).last() == d@);
            if !self.has_descriptor(d) {
                self.descriptors.push(d.clone_descriptor());
                assert(descriptors_model(self.descriptors@) =~= before.push(d@));
            }
            i += 1;
        }
        assert(items.subrange(0, items.len() as int) =~= items);
        if self.selected_descriptor.is_none() && self.descriptors.len() > 0 {
            self.selected_descriptor = Some(0);
        }
    }
}

} // verus!
