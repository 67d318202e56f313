//! The capability aggregate: what one device can decode and encode in one
//! compression format.

use vstd::prelude::*;
use vstd::slice::slice_to_vec;
use crate::ownership::backing;
use crate::ownership::lemma_owned_by_all_of_leaves;
use crate::ownership::Allocation;
use crate::ownership::ArrayKind;
use crate::ownership::Owner;
use crate::records::DecodingSpec;
use crate::records::EncodingSpec;
use crate::tags::Codec;
use crate::utils::drop_vec;
use crate::utils::is_packed;
use crate::utils::packed_items;
use crate::utils::vec_to_ptr;

verus! {

/// The decoding and encoding limits of one compression format, each list in
/// its boundary form. Either list may be empty: a device may only decode a
/// format, or only encode it.
#[derive(Debug, PartialEq, Eq)]
pub struct CodecDetails {
    codec: Codec,
    decoding_specs: Option<Vec<DecodingSpec>>,
    num_decoding_specs: u32,
    encoding_specs: Option<Vec<EncodingSpec>>,
    num_encoding_specs: u32,
}

/// What a capability aggregate says, apart from its form at the boundary.
pub struct CodecDetailsView {
    pub codec: Codec,
    pub decoding: Seq<DecodingSpec>,
    pub encoding: Seq<EncodingSpec>,
}

impl View for CodecDetails {
    type V = CodecDetailsView;

    open spec fn view(&self) -> CodecDetailsView {
        CodecDetailsView {
            codec: self.spec_codec(),
            decoding: packed_items(self.spec_decoding_specs()),
            encoding: packed_items(self.spec_encoding_specs()),
        }
    }
}

impl Clone for CodecDetails {
    /// Copies the aggregate with both of its lists. The copy says what the
    /// aggregate says and owns allocations of its own, as many and of the
    /// same kinds.
    fn clone(&self) -> (r: Self)
        ensures
            r.wf(),
            r@ == self@,
            r.owned() == self.owned(),
    {
        proof {
            use_type_invariant(self);
        }
        let decoding_specs = match &self.decoding_specs {
            Some(list) => Some(slice_to_vec(list.as_slice())),
            None => None,
        };
        let encoding_specs = match &self.encoding_specs {
            Some(list) => Some(slice_to_vec(list.as_slice())),
            None => None,
        };

        Self {
            codec: self.codec,
            decoding_specs,
            num_decoding_specs: self.num_decoding_specs,
            encoding_specs,
            num_encoding_specs: self.num_encoding_specs,
        }
    }
}

impl CodecDetails {
    /// The compression format.
    pub closed spec fn spec_codec(&self) -> Codec {
        self.codec
    }

    /// The pointer to the decoding limits; `None` is the null pointer.
    pub closed spec fn spec_decoding_specs(&self) -> Option<Vec<DecodingSpec>> {
        self.decoding_specs
    }

    /// The count that goes with the pointer to the decoding limits.
    pub closed spec fn spec_num_decoding_specs(&self) -> u32 {
        self.num_decoding_specs
    }

    /// The pointer to the encoding limits; `None` is the null pointer.
    pub closed spec fn spec_encoding_specs(&self) -> Option<Vec<EncodingSpec>> {
        self.encoding_specs
    }

    /// The count that goes with the pointer to the encoding limits.
    pub closed spec fn spec_num_encoding_specs(&self) -> u32 {
        self.num_encoding_specs
    }

    /// Each side is in packed form: its pointer is null exactly when its count
    /// is 0, and a backing store holds as many limits as the count tells.
    /// Every aggregate that exists while the program runs is of this form.
    #[verifier::type_invariant]
    pub open spec fn wf(&self) -> bool {
        &&& is_packed(self.spec_decoding_specs(), self.spec_num_decoding_specs())
        &&& is_packed(self.spec_encoding_specs(), self.spec_num_encoding_specs())
    }

    /// The allocations on the decoding side: the backing store of the
    /// decoding limits, if there are any.
    pub open spec fn decoding_owned(&self) -> Seq<Allocation> {
        backing::<DecodingSpec>(self.spec_num_decoding_specs())
    }

    /// The allocations on the encoding side: the backing store of the
    /// encoding limits, if there are any.
    pub open spec fn encoding_owned(&self) -> Seq<Allocation> {
        backing::<EncodingSpec>(self.spec_num_encoding_specs())
    }

    /// Builds the aggregate of `codec` from its two lists, taking both over.
    pub fn new(codec: Codec, decoding: Vec<DecodingSpec>, encoding: Vec<EncodingSpec>) -> (r: Self)
        requires
            decoding@.len() <= u32::MAX,
            encoding@.len() <= u32::MAX,
        ensures
            r.wf(),
            r@ == (CodecDetailsView { codec, decoding: decoding@, encoding: encoding@ }),
    {
        let (decoding_specs, num_decoding_specs) = vec_to_ptr(decoding);
        let (encoding_specs, num_encoding_specs) = vec_to_ptr(encoding);

        Self { codec, decoding_specs, num_decoding_specs, encoding_specs, num_encoding_specs }
    }

    /// Fuses two probe results for `codec` into one aggregate: the whole
    /// decoding side of `decoding` and the whole encoding side of `encoding`.
    /// A side whose source is absent is left null with a count of 0.
    ///
    /// Of a source only the side that is taken lives on; its other side is
    /// given up and released with it. What the result owns is therefore the
    /// decoding side of the one and the encoding side of the other, and no
    /// more. A source that holds only the side that is taken gives nothing
    /// up.
    pub fn combine(codec: Codec, decoding: Option<CodecDetails>, encoding: Option<CodecDetails>) -> (r: Self)
        ensures
            r.wf(),
            r.spec_codec() == codec,
            match decoding {
                Some(d) => r.spec_decoding_specs() == d.spec_decoding_specs()
                    && r.spec_num_decoding_specs() == d.spec_num_decoding_specs(),
                None => r.spec_decoding_specs() is None && r.spec_num_decoding_specs() == 0,
            },
            match encoding {
                Some(e) => r.spec_encoding_specs() == e.spec_encoding_specs()
                    && r.spec_num_encoding_specs() == e.spec_num_encoding_specs(),
                None => r.spec_encoding_specs() is None && r.spec_num_encoding_specs() == 0,
            },
            r@ == Self::combined(codec, decoding, encoding),
            r.owned() == Self::taken_over(decoding, encoding),
    {
        let (decoding_specs, num_decoding_specs) = if let Some(decoding) = decoding {
            decoding.into_raw_decoding_specs()
        } else {
            (None, 0)
        };

        let (encoding_specs, num_encoding_specs) = if let Some(encoding) = encoding {
            encoding.into_raw_encoding_specs()
        } else {
            (None, 0)
        };

        Self { codec, decoding_specs, num_decoding_specs, encoding_specs, num_encoding_specs }
    }

    /// What the fusion of two sources says.
    pub open spec fn combined(
        codec: Codec,
        decoding: Option<CodecDetails>,
        encoding: Option<CodecDetails>,
    ) -> CodecDetailsView {
        CodecDetailsView {
            codec,
            decoding: match decoding {
                Some(d) => d@.decoding,
                None => Seq::empty(),
            },
            encoding: match encoding {
                Some(e) => e@.encoding,
                None => Seq::empty(),
            },
        }
    }

    /// The allocations that a fusion takes over from its sources.
    pub open spec fn taken_over(decoding: Option<CodecDetails>, encoding: Option<CodecDetails>) -> Seq<
        Allocation,
    > {
        (match decoding {
            Some(d) => d.decoding_owned(),
            None => Seq::empty(),
        }) + (match encoding {
            Some(e) => e.encoding_owned(),
            None => Seq::empty(),
        })
    }

    /// The allocations of its sources that a fusion does not take over: the
    /// encoding side of the decoding source and the decoding side of the
    /// encoding source. They are released with the sources.
    pub open spec fn given_up(decoding: Option<CodecDetails>, encoding: Option<CodecDetails>) -> Seq<
        Allocation,
    > {
        (match decoding {
            Some(d) => d.encoding_owned(),
            None => Seq::empty(),
        }) + (match encoding {
            Some(e) => e.decoding_owned(),
            None => Seq::empty(),
        })
    }

    /// All that the sources of a fusion own.
    pub open spec fn sources_owned(decoding: Option<CodecDetails>, encoding: Option<CodecDetails>) -> Seq<
        Allocation,
    > {
        (match decoding {
            Some(d) => d.owned(),
            None => Seq::empty(),
        }) + (match encoding {
            Some(e) => e.owned(),
            None => Seq::empty(),
        })
    }

    /// The compression format.
    #[verifier::when_used_as_spec(spec_codec)]
    pub fn codec(&self) -> (c: Codec)
        ensures
            c == self.spec_codec(),
    {
        self.codec
    }

    /// Gives up the aggregate and hands its decoding side to the caller, as a
    /// pointer and a count that the caller now owns. The encoding side is not
    /// handed on: it is released with the aggregate.
    pub fn into_raw_decoding_specs(self) -> (r: (Option<Vec<DecodingSpec>>, u32))
        ensures
            r.0 == self.spec_decoding_specs(),
            r.1 == self.spec_num_decoding_specs(),
            is_packed(r.0, r.1),
            packed_items(r.0) == self@.decoding,
    {
        proof {
            use_type_invariant(&self);
        }
        let Self { decoding_specs, num_decoding_specs, .. } = self;

        (decoding_specs, num_decoding_specs)
    }

    /// Gives up the aggregate and hands its encoding side to the caller, as a
    /// pointer and a count that the caller now owns. The decoding side is not
    /// handed on: it is released with the aggregate.
    pub fn into_raw_encoding_specs(self) -> (r: (Option<Vec<EncodingSpec>>, u32))
        ensures
            r.0 == self.spec_encoding_specs(),
            r.1 == self.spec_num_encoding_specs(),
            is_packed(r.0, r.1),
            packed_items(r.0) == self@.encoding,
    {
        proof {
            use_type_invariant(&self);
        }
        let Self { encoding_specs, num_encoding_specs, .. } = self;

        (encoding_specs, num_encoding_specs)
    }

    /// The pointer to the decoding limits; `None` is the null pointer.
    pub fn decoding_specs(&self) -> (p: Option<&Vec<DecodingSpec>>)
        ensures
            p is None <==> self.spec_decoding_specs() is None,
            p matches Some(v) ==> self.spec_decoding_specs() == Some(*v),
            p is None <==> self.spec_num_decoding_specs() == 0,
            p matches Some(v) ==> v@.len() == self.spec_num_decoding_specs(),
    {
        proof {
            use_type_invariant(self);
        }
        self.decoding_specs.as_ref()
    }

    /// The count that goes with the pointer to the decoding limits.
    #[verifier::when_used_as_spec(spec_num_decoding_specs)]
    pub fn num_decoding_specs(&self) -> (n: u32)
        ensures
            n == self.spec_num_decoding_specs(),
    {
        self.num_decoding_specs
    }

    /// The pointer to the encoding limits; `None` is the null pointer.
    pub fn encoding_specs(&self) -> (p: Option<&Vec<EncodingSpec>>)
        ensures
            p is None <==> self.spec_encoding_specs() is None,
            p matches Some(v) ==> self.spec_encoding_specs() == Some(*v),
            p is None <==> self.spec_num_encoding_specs() == 0,
            p matches Some(v) ==> v@.len() == self.spec_num_encoding_specs(),
    {
        proof {
            use_type_invariant(self);
        }
        self.encoding_specs.as_ref()
    }

    /// The count that goes with the pointer to the encoding limits.
    #[verifier::when_used_as_spec(spec_num_encoding_specs)]
    pub fn num_encoding_specs(&self) -> (n: u32)
        ensures
            n == self.spec_num_encoding_specs(),
    {
        self.num_encoding_specs
    }

    /// In a well-formed aggregate each pointer is null exactly when its count
    /// is 0, and each count is the number of limits on its side.
    pub proof fn lemma_null_iff_count_zero(self)
        requires
            self.wf(),
        ensures
            self.spec_decoding_specs() is None <==> self.spec_num_decoding_specs() == 0,
            self.spec_encoding_specs() is None <==> self.spec_num_encoding_specs() == 0,
            self.spec_num_decoding_specs() == self@.decoding.len(),
            self.spec_num_encoding_specs() == self@.encoding.len(),
    {
    }

    /// Every allocation of the sources of a fusion is either taken over or
    /// given up, and none is both. Nothing is given up when the decoding
    /// source has only a decoding side and the encoding source only an
    /// encoding side: what the result owns is then all that the two sources
    /// owned.
    pub proof fn lemma_combine_splits_sources(decoding: Option<CodecDetails>, encoding: Option<CodecDetails>)
        ensures
            Self::taken_over(decoding, encoding).len() + Self::given_up(decoding, encoding).len()
                == Self::sources_owned(decoding, encoding).len(),
            (decoding matches Some(d) ==> d.spec_num_encoding_specs() == 0) && (encoding matches Some(e)
                ==> e.spec_num_decoding_specs() == 0) ==> {
                &&& Self::given_up(decoding, encoding) == Seq::<Allocation>::empty()
                &&& Self::taken_over(decoding, encoding) == Self::sources_owned(decoding, encoding)
            },
    {
        if (decoding matches Some(d) ==> d.spec_num_encoding_specs() == 0) && (encoding matches Some(e)
            ==> e.spec_num_decoding_specs() == 0) {
            assert(Self::given_up(decoding, encoding) =~= Seq::<Allocation>::empty());
            assert(Self::taken_over(decoding, encoding) =~= Self::sources_owned(decoding, encoding));
        }
    }
}

impl Owner for CodecDetails {
    open spec fn owned(&self) -> Seq<Allocation> {
        self.decoding_owned() + self.encoding_owned()
    }

    open spec fn array_kind() -> ArrayKind {
        ArrayKind::Codecs
    }

    fn kind() -> ArrayKind {
        ArrayKind::Codecs
    }

    /// Releases the decoding limits, then the encoding limits; a side with a
    /// count of 0 has nothing to release.
    fn release(self) -> (freed: Vec<Allocation>) {
        let mut freed: Vec<Allocation> = Vec::new();
        proof {
            use_type_invariant(&self);
            lemma_owned_by_all_of_leaves(packed_items(self.decoding_specs));
            lemma_owned_by_all_of_leaves(packed_items(self.encoding_specs));
        }

        if self.num_decoding_specs > 0 {
            let mut part = drop_vec(self.decoding_specs, self.num_decoding_specs);
            freed.append(&mut part);
        }

        if self.num_encoding_specs > 0 {
            let mut part = drop_vec(self.encoding_specs, self.num_encoding_specs);
            freed.append(&mut part);
        }

        freed
    }
}

} // verus!
