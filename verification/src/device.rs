//! The description of one hardware device.

use vstd::prelude::*;
use crate::codec_details::CodecDetails;
use crate::codec_details::CodecDetailsView;
use crate::ownership::backing;
use crate::ownership::lemma_owned_by_all_agrees;
use crate::ownership::owned_by_all;
use crate::ownership::Allocation;
use crate::ownership::ArrayKind;
use crate::ownership::Owner;
use crate::tags::Driver;
use crate::text::has_nul;
use crate::text::text_bytes;
use crate::text::CText;
use crate::utils::drop_vec;
use crate::utils::is_packed;
use crate::utils::lemma_pack_then_drop;
use crate::utils::packed_items;
use crate::utils::spec_drop_vec;
use crate::utils::spec_vec_to_ptr;
use crate::utils::vec_to_ptr;

verus! {

/// One hardware device: its driver, what selects it, its display name if it
/// has one, and what it can do in each compression format.
///
/// A device is selected either by an ordinal or by a path, never by both. The
/// path is null exactly in a device that is selected by its ordinal; such a
/// device always has a name.
#[derive(Debug, PartialEq, Eq)]
pub struct Device {
    driver: Driver,
    ordinal: u8,
    path: Option<CText>,
    name: Option<CText>,
    codecs: Option<Vec<CodecDetails>>,
    num_codecs: u32,
}

/// What selects a device.
pub enum Selector {
    /// Its index among the devices of its driver.
    Ordinal(u8),
    /// The bytes of its path in the file system.
    Path(Seq<u8>),
}

/// What a device description says, apart from its form at the boundary.
pub struct DeviceView {
    pub driver: Driver,
    pub selector: Selector,
    pub name: Option<Seq<u8>>,
    pub codecs: Seq<CodecDetailsView>,
}

/// What each aggregate of a list says.
pub open spec fn codec_views(codecs: Seq<CodecDetails>) -> Seq<CodecDetailsView> {
    codecs.map_values(|c: CodecDetails| c@)
}

/// The bytes of a text that may be absent.
pub open spec fn text_view(text: Option<CText>) -> Option<Seq<u8>> {
    match text {
        Some(t) => Some(t@),
        None => None,
    }
}

impl View for Device {
    type V = DeviceView;

    open spec fn view(&self) -> DeviceView {
        DeviceView {
            driver: self.spec_driver(),
            selector: match self.spec_path() {
                Some(p) => Selector::Path(p@),
                None => Selector::Ordinal(self.spec_ordinal()),
            },
            name: text_view(self.spec_name()),
            codecs: codec_views(packed_items(self.spec_codecs())),
        }
    }
}

impl Clone for Device {
    /// Copies the description with its texts and its aggregates. The copy
    /// says what the description says and owns allocations of its own, as
    /// many and of the same kinds.
    fn clone(&self) -> (r: Self)
        ensures
            r.wf(),
            r@ == self@,
            r.owned() == self.owned(),
    {
        proof {
            use_type_invariant(self);
        }
        let path = match &self.path {
            Some(text) => Some(text.clone()),
            None => None,
        };
        let name = match &self.name {
            Some(text) => Some(text.clone()),
            None => None,
        };
        let codecs = match &self.codecs {
            Some(list) => {
                let copy = list.clone();
                proof {
                    assert forall|i: int| 0 <= i < list@.len() implies (#[trigger] list@[i])@
                        == copy@[i]@ && list@[i].owned() == copy@[i].owned() by {
                        assert(cloned::<CodecDetails>(list@[i], copy@[i]));
                    }
                    assert(codec_views(list@) =~= codec_views(copy@));
                    lemma_owned_by_all_agrees(list@, copy@);
                }
                Some(copy)
            },
            None => None,
        };

        Self { driver: self.driver, ordinal: self.ordinal, path, name, codecs, num_codecs: self.num_codecs }
    }
}

impl Device {
    /// The driver.
    pub closed spec fn spec_driver(&self) -> Driver {
        self.driver
    }

    /// The ordinal; 0 in a device that is selected by its path.
    pub closed spec fn spec_ordinal(&self) -> u8 {
        self.ordinal
    }

    /// The pointer to the path; `None` is the null pointer.
    pub closed spec fn spec_path(&self) -> Option<CText> {
        self.path
    }

    /// The pointer to the name; `None` is the null pointer.
    pub closed spec fn spec_name(&self) -> Option<CText> {
        self.name
    }

    /// The pointer to the aggregates; `None` is the null pointer.
    pub closed spec fn spec_codecs(&self) -> Option<Vec<CodecDetails>> {
        self.codecs
    }

    /// The count that goes with the pointer to the aggregates.
    pub closed spec fn spec_num_codecs(&self) -> u32 {
        self.num_codecs
    }

    /// A path goes with the ordinal 0, a device without a path has a name,
    /// no text has a zero byte in it, and the aggregates are in packed form:
    /// their pointer is null exactly when their count is 0, and a backing
    /// store holds as many aggregates as the count tells. Every description
    /// that exists while the program runs is of this form.
    #[verifier::type_invariant]
    pub open spec fn wf(&self) -> bool {
        &&& self.spec_path() matches Some(p) ==> p.wf() && self.spec_ordinal() == 0
        &&& self.spec_path() is None ==> self.spec_name() is Some
        &&& self.spec_name() matches Some(n) ==> n.wf()
        &&& is_packed(self.spec_codecs(), self.spec_num_codecs())
    }

    /// The allocations of the two texts: the path, then the name, each if it
    /// is there.
    pub open spec fn texts_owned(&self) -> Seq<Allocation> {
        (if self.spec_path() is Some {
            seq![Allocation::Path]
        } else {
            Seq::empty()
        }) + (if self.spec_name() is Some {
            seq![Allocation::Name]
        } else {
            Seq::empty()
        })
    }

    /// Describes a device that is selected by its ordinal. The name is
    /// converted into boundary form; the path stays null. The text and the
    /// list are taken over.
    pub fn new_with_ordinal(driver: Driver, ordinal: u8, name: String, codecs: Vec<CodecDetails>) -> (r: Self)
        requires
            !has_nul(text_bytes(name@)),
            codecs@.len() <= u32::MAX,
        ensures
            r.wf(),
            r.spec_path() is None,
            r.spec_name() is Some,
            r.spec_ordinal() == ordinal,
            (r.spec_codecs(), r.spec_num_codecs()) == spec_vec_to_ptr(codecs),
            r@ == (DeviceView {
                driver,
                selector: Selector::Ordinal(ordinal),
                name: Some(text_bytes(name@)),
                codecs: codec_views(codecs@),
            }),
            r.owned() == seq![Allocation::Name] + owned_by_all(codecs@) + backing::<CodecDetails>(
                codecs@.len() as u32,
            ),
    {
        proof {
            lemma_pack_then_drop(codecs);
        }
        let name = CText::new(name).unwrap();
        let (codecs, num_codecs) = vec_to_ptr(codecs);

        Self { driver, ordinal, path: None, name: Some(name), codecs, num_codecs }
    }

    /// Describes a device that is selected by its path. The path is converted
    /// into boundary form, and so is the name if there is one; without one the
    /// name stays null. The ordinal is 0. The texts and the list are taken
    /// over.
    pub fn new_with_path(driver: Driver, path: String, name: Option<String>, codecs: Vec<CodecDetails>) -> (r: Self)
        requires
            !has_nul(text_bytes(path@)),
            name matches Some(n) ==> !has_nul(text_bytes(n@)),
            codecs@.len() <= u32::MAX,
        ensures
            r.wf(),
            r.spec_path() is Some,
            r.spec_name() is None <==> name is None,
            r.spec_ordinal() == 0,
            (r.spec_codecs(), r.spec_num_codecs()) == spec_vec_to_ptr(codecs),
            r@ == (DeviceView {
                driver,
                selector: Selector::Path(text_bytes(path@)),
                name: match name {
                    Some(n) => Some(text_bytes(n@)),
                    None => None,
                },
                codecs: codec_views(codecs@),
            }),
            r.owned() == seq![Allocation::Path] + (if name is Some {
                seq![Allocation::Name]
            } else {
                Seq::empty()
            }) + owned_by_all(codecs@) + backing::<CodecDetails>(codecs@.len() as u32),
    {
        proof {
            lemma_pack_then_drop(codecs);
        }
        let path = CText::new(path).unwrap();
        let name = match name {
            Some(it) => Some(CText::new(it).unwrap()),
            None => None,
        };
        let (codecs, num_codecs) = vec_to_ptr(codecs);

        Self { driver, ordinal: 0, path: Some(path), name, codecs, num_codecs }
    }

    /// The driver.
    #[verifier::when_used_as_spec(spec_driver)]
    pub fn driver(&self) -> (d: Driver)
        ensures
            d == self.spec_driver(),
    {
        self.driver
    }

    /// The ordinal; 0 in a device that is selected by its path.
    #[verifier::when_used_as_spec(spec_ordinal)]
    pub fn ordinal(&self) -> (n: u8)
        ensures
            n == self.spec_ordinal(),
    {
        self.ordinal
    }

    /// The pointer to the path; `None` is the null pointer.
    pub fn path(&self) -> (p: Option<&CText>)
        ensures
            p is None <==> self.spec_path() is None,
            p matches Some(t) ==> self.spec_path() == Some(*t),
            p is Some ==> self.spec_ordinal() == 0,
            p is None ==> self.spec_name() is Some,
    {
        proof {
            use_type_invariant(self);
        }
        self.path.as_ref()
    }

    /// The pointer to the name; `None` is the null pointer.
    pub fn name(&self) -> (p: Option<&CText>)
        ensures
            p is None <==> self.spec_name() is None,
            p matches Some(t) ==> self.spec_name() == Some(*t),
    {
        self.name.as_ref()
    }

    /// The pointer to the aggregates; `None` is the null pointer.
    pub fn codecs(&self) -> (p: Option<&Vec<CodecDetails>>)
        ensures
            p is None <==> self.spec_codecs() is None,
            p matches Some(v) ==> self.spec_codecs() == Some(*v),
            p is None <==> self.spec_num_codecs() == 0,
            p matches Some(v) ==> v@.len() == self.spec_num_codecs(),
    {
        proof {
            use_type_invariant(self);
        }
        self.codecs.as_ref()
    }

    /// The count that goes with the pointer to the aggregates.
    #[verifier::when_used_as_spec(spec_num_codecs)]
    pub fn num_codecs(&self) -> (n: u32)
        ensures
            n == self.spec_num_codecs(),
    {
        self.num_codecs
    }

    /// In a well-formed device the pointer to the aggregates is null exactly
    /// when its count is 0, the count is the number of aggregates, and the
    /// path is null exactly when an ordinal selects the device, which then has
    /// a name.
    pub proof fn lemma_null_iff_count_zero(self)
        requires
            self.wf(),
        ensures
            self.spec_codecs() is None <==> self.spec_num_codecs() == 0,
            self.spec_num_codecs() == self@.codecs.len(),
            self.spec_path() is None <==> self@.selector is Ordinal,
            self.spec_path() is None ==> self.spec_name() is Some,
            self.spec_name() is None <==> self@.name is None,
    {
    }
}

impl Owner for Device {
    open spec fn owned(&self) -> Seq<Allocation> {
        self.texts_owned() + spec_drop_vec(self.spec_codecs(), self.spec_num_codecs())
    }

    open spec fn array_kind() -> ArrayKind {
        ArrayKind::Devices
    }

    fn kind() -> ArrayKind {
        ArrayKind::Devices
    }

    /// Releases the path if there is one, then the name if there is one, then
    /// every aggregate in order, and the backing store of the aggregates last.
    fn release(self) -> (freed: Vec<Allocation>) {
        let mut freed: Vec<Allocation> = Vec::new();
        proof {
            use_type_invariant(&self);
        }

        if self.path.is_some() {
            freed.push(Allocation::Path);
        }

        if self.name.is_some() {
            freed.push(Allocation::Name);
        }

        if self.num_codecs > 0 {
            let mut part = drop_vec(self.codecs, self.num_codecs);
            freed.append(&mut part);
        }

        freed
    }
}

} // verus!
