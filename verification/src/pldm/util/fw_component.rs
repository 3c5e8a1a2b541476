use crate::pldm::message::firmware_update::get_fw_params::FirmwareParameters;
use crate::pldm::protocol::firmware_update::{
    lex_lt, version_bytes, ComponentParameterEntry, ComponentResponseCode, PldmFirmwareString,
    UpdateOptionFlags, MAX_COMPONENT_COUNT,
};
use vstd::prelude::*;

verus! {

/// A component offered for update, as in a PassComponentTable or an
/// UpdateComponent request.
#[derive(Debug, Clone, Copy)]
pub struct FirmwareComponent {
    pub comp_classification: u16,
    pub comp_identifier: u16,
    pub comp_classification_index: u8,
    pub comp_comparison_stamp: u32,
    pub comp_version: PldmFirmwareString,
    pub comp_image_size: Option<u32>,
    pub update_option_flags: Option<UpdateOptionFlags>,
}

impl Default for FirmwareComponent {
    fn default() -> (r: Self)
        ensures
            r.comp_classification == 0,
            r.comp_identifier == 0,
            r.comp_classification_index == 0,
            r.comp_comparison_stamp == 0,
            r.comp_version.str_type == 0,
            r.comp_version.str_len == 0,
            r.comp_image_size is None,
            r.update_option_flags is None,
    {
        FirmwareComponent {
            comp_classification: 0,
            comp_identifier: 0,
            comp_classification_index: 0,
            comp_comparison_stamp: 0,
            comp_version: PldmFirmwareString::default(),
            comp_image_size: None,
            update_option_flags: None,
        }
    }
}

/// The entry describes the component: same classification, identifier and
/// classification index.
pub open spec fn describes(e: ComponentParameterEntry, c: FirmwareComponent) -> bool {
    &&& e.comp_param_entry_fixed.comp_classification == c.comp_classification
    &&& e.comp_param_entry_fixed.comp_identifier == c.comp_identifier
    &&& e.comp_param_entry_fixed.comp_classification_index == c.comp_classification_index
}

/// `i` is the first entry of the table that describes the component.
pub open spec fn is_first_match(table: Seq<ComponentParameterEntry>, c: FirmwareComponent, i: int) -> bool {
    &&& 0 <= i < table.len()
    &&& describes(table[i], c)
    &&& forall|j: int| 0 <= j < i ==> !describes(#[trigger] table[j], c)
}

/// The active version of an entry.
pub open spec fn active_version(e: ComponentParameterEntry) -> PldmFirmwareString {
    PldmFirmwareString {
        str_type: e.comp_param_entry_fixed.active_comp_ver_str_type,
        str_len: e.comp_param_entry_fixed.active_comp_ver_str_len,
        str_data: e.active_comp_ver_str,
    }
}

/// The answer for a component against the entry that describes it: the
/// comparison stamps decide first, then the version strings (of the same
/// string type, compared byte by byte).
pub open spec fn response_for(c: FirmwareComponent, e: ComponentParameterEntry) -> ComponentResponseCode {
    let active = active_version(e);
    if c.comp_comparison_stamp == e.comp_param_entry_fixed.active_comp_comparison_stamp {
        ComponentResponseCode::CompComparisonStampIdentical
    } else if c.comp_comparison_stamp < e.comp_param_entry_fixed.active_comp_comparison_stamp {
        ComponentResponseCode::CompComparisonStampLower
    } else if c.comp_version.str_type == active.str_type && version_bytes(c.comp_version)
        == version_bytes(active) {
        ComponentResponseCode::CompVerStrIdentical
    } else if c.comp_version.str_type == active.str_type && lex_lt(
        version_bytes(c.comp_version),
        version_bytes(active),
    ) {
        ComponentResponseCode::CompVerStrLower
    } else {
        ComponentResponseCode::CompCanBeUpdated
    }
}

/// The answer for a component against a table: that of the first entry that
/// describes it, or `CompNotSupported` when none does.
pub open spec fn eligibility(c: FirmwareComponent, table: Seq<ComponentParameterEntry>) -> ComponentResponseCode {
    if exists|i: int| is_first_match(table, c, i) {
        response_for(c, table[choose|i: int| is_first_match(table, c, i)])
    } else {
        ComponentResponseCode::CompNotSupported
    }
}

/// A component can be updated only when an entry of the table describes it,
/// the first such entry has a lower active comparison stamp, and, where both
/// version strings have the same type, the active one is neither the same
/// string nor a later one.
pub proof fn lemma_update_needs_newer_component(c: FirmwareComponent, table: Seq<ComponentParameterEntry>)
    requires
        eligibility(c, table) == ComponentResponseCode::CompCanBeUpdated,
    ensures
        exists|i: int| is_first_match(table, c, i),
        ({
            let e = table[choose|i: int| is_first_match(table, c, i)];
            &&& c.comp_comparison_stamp > e.comp_param_entry_fixed.active_comp_comparison_stamp
            &&& c.comp_version.str_type == active_version(e).str_type ==> version_bytes(c.comp_version)
                != version_bytes(active_version(e)) && !lex_lt(
                version_bytes(c.comp_version),
                version_bytes(active_version(e)),
            )
        }),
{
}

/// The first entry that describes a component is unique.
pub proof fn lemma_first_match_unique(table: Seq<ComponentParameterEntry>, c: FirmwareComponent, i: int, j: int)
    requires
        is_first_match(table, c, i),
        is_first_match(table, c, j),
    ensures
        i == j,
{
    if i < j {
        assert(!describes(table[i], c));
    } else if j < i {
        assert(!describes(table[j], c));
    }
}

/// An answer other than `CompNotSupported` comes from an entry of the table
/// with the component's classification, identifier and classification index,
/// with no earlier entry having all three; its comparison stamp decides the
/// stamp answers. A table with no entry of the component's identifier (or
/// classification, or classification index) answers `CompNotSupported`.
pub proof fn lemma_eligibility_needs_same_component(c: FirmwareComponent, table: Seq<ComponentParameterEntry>)
    ensures
        eligibility(c, table) != ComponentResponseCode::CompNotSupported ==> exists|i: int|
            {
                &&& 0 <= i < table.len()
                &&& #[trigger] table[i].comp_param_entry_fixed.comp_classification == c.comp_classification
                &&& table[i].comp_param_entry_fixed.comp_identifier == c.comp_identifier
                &&& table[i].comp_param_entry_fixed.comp_classification_index == c.comp_classification_index
                &&& forall|j: int|
                    0 <= j < i ==> !(#[trigger] table[j].comp_param_entry_fixed.comp_classification
                        == c.comp_classification && table[j].comp_param_entry_fixed.comp_identifier
                        == c.comp_identifier && table[j].comp_param_entry_fixed.comp_classification_index
                        == c.comp_classification_index)
                &&& (eligibility(c, table) == ComponentResponseCode::CompComparisonStampIdentical <==> c.comp_comparison_stamp
                    == table[i].comp_param_entry_fixed.active_comp_comparison_stamp)
                &&& (eligibility(c, table) == ComponentResponseCode::CompComparisonStampLower <==> c.comp_comparison_stamp
                    < table[i].comp_param_entry_fixed.active_comp_comparison_stamp)
                &&& (eligibility(c, table) == ComponentResponseCode::CompVerStrIdentical ==> c.comp_comparison_stamp
                    > table[i].comp_param_entry_fixed.active_comp_comparison_stamp && c.comp_version.str_type
                    == table[i].comp_param_entry_fixed.active_comp_ver_str_type && c.comp_version.str_data@.subrange(
                    0,
                    c.comp_version.str_len as int,
                ) == table[i].active_comp_ver_str@.subrange(
                    0,
                    table[i].comp_param_entry_fixed.active_comp_ver_str_len as int,
                ))
            },
        (forall|i: int|
            0 <= i < table.len() ==> #[trigger] table[i].comp_param_entry_fixed.comp_identifier != c.comp_identifier)
            ==> eligibility(c, table) == ComponentResponseCode::CompNotSupported,
        (forall|i: int|
            0 <= i < table.len() ==> #[trigger] table[i].comp_param_entry_fixed.comp_classification
                != c.comp_classification) ==> eligibility(c, table) == ComponentResponseCode::CompNotSupported,
        (forall|i: int|
            0 <= i < table.len() ==> #[trigger] table[i].comp_param_entry_fixed.comp_classification_index
                != c.comp_classification_index) ==> eligibility(c, table) == ComponentResponseCode::CompNotSupported,
{
    if exists|i: int| is_first_match(table, c, i) {
        let i = choose|i: int| is_first_match(table, c, i);
        assert(is_first_match(table, c, i));
        let e = table[i];
        assert(describes(e, c));
        assert forall|j: int| 0 <= j < i implies !(#[trigger] table[j].comp_param_entry_fixed.comp_classification
            == c.comp_classification && table[j].comp_param_entry_fixed.comp_identifier == c.comp_identifier
            && table[j].comp_param_entry_fixed.comp_classification_index == c.comp_classification_index) by {
            assert(!describes(table[j], c));
        }
        assert(table[i].comp_param_entry_fixed.comp_classification == c.comp_classification);
    }
}

impl FirmwareComponent {
    pub fn new(
        comp_classification: u16,
        comp_identifier: u16,
        comp_classification_index: u8,
        comp_comparison_stamp: u32,
        comp_version: PldmFirmwareString,
        comp_image_size: Option<u32>,
        update_option_flags: Option<UpdateOptionFlags>,
    ) -> (r: Self)
        ensures
            r == (FirmwareComponent {
                comp_classification,
                comp_identifier,
                comp_classification_index,
                comp_comparison_stamp,
                comp_version,
                comp_image_size,
                update_option_flags,
            }),
    {
        Self {
            comp_classification,
            comp_identifier,
            comp_classification_index,
            comp_comparison_stamp,
            comp_version,
            comp_image_size,
            update_option_flags,
        }
    }

    /// Whether the component may be updated, against the first entry of the
    /// whole parameter table (all eight entries are searched) that describes
    /// it.
    pub fn evaluate_update_eligibility(&self, fw_params: &FirmwareParameters) -> (r: ComponentResponseCode)
        ensures
            r == eligibility(*self, fw_params.comp_param_table@),
    {
        let ghost table = fw_params.comp_param_table@;
        let mut i: usize = 0;
        while i < MAX_COMPONENT_COUNT
            invariant
                i <= MAX_COMPONENT_COUNT,
                table == fw_params.comp_param_table@,
                table.len() == MAX_COMPONENT_COUNT,
                forall|j: int| 0 <= j < i ==> !describes(#[trigger] table[j], *self),
            decreases MAX_COMPONENT_COUNT - i,
        {
            let entry = &fw_params.comp_param_table[i];
            if entry.comp_param_entry_fixed.comp_classification == self.comp_classification
                && entry.comp_param_entry_fixed.comp_identifier == self.comp_identifier
                && entry.comp_param_entry_fixed.comp_classification_index == self.comp_classification_index {
                assert(is_first_match(table, *self, i as int));
                assert forall|k: int| #[trigger] is_first_match(table, *self, k) implies k == i by {
                    if k < i {
                        assert(!describes(table[k], *self));
                    } else if k > i {
                        assert(!describes(table[i as int], *self));
                    }
                }
                let active = entry.get_active_fw_ver();
                assert(active == active_version(*entry));
                if self.comp_comparison_stamp == entry.comp_param_entry_fixed.active_comp_comparison_stamp {
                    return ComponentResponseCode::CompComparisonStampIdentical;
                } else if self.comp_comparison_stamp < entry.comp_param_entry_fixed.active_comp_comparison_stamp {
                    return ComponentResponseCode::CompComparisonStampLower;
                } else if self.comp_version == active {
                    return ComponentResponseCode::CompVerStrIdentical;
                } else if self.comp_version.is_older_than(&active) {
                    return ComponentResponseCode::CompVerStrLower;
                } else {
                    return ComponentResponseCode::CompCanBeUpdated;
                }
            }
            i = i + 1;
        }
        assert(!exists|k: int| is_first_match(table, *self, k));
        ComponentResponseCode::CompNotSupported
    }
}

} // verus!
