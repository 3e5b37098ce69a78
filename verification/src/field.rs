//! Bit fields inside a 32-bit register: reading a field, building a field
//! value and merging it into a register value (read-modify-write).

use vstd::prelude::*;

verus! {

/// A field of a 32-bit register: `mask` holds the field's bits unshifted,
/// `shift` is the position of its lowest bit.
#[derive(Clone, Copy, Debug, PartialEq, Eq)]
pub struct Field {
    pub mask: u32,
    pub shift: u32,
}

/// A value for one or more fields: `mask` covers the bits it governs (in
/// place), `value` holds their new contents (in place, within `mask`).
#[derive(Clone, Copy, Debug, PartialEq, Eq)]
pub struct FieldValue {
    pub mask: u32,
    pub value: u32,
}

/// The contents of `field` in the register value `reg`.
pub open spec fn spec_field_read(field: Field, reg: u32) -> u32 {
    (reg & (field.mask << field.shift)) >> field.shift
}

/// The field value that stores `v` (truncated to the field) into `field`.
pub open spec fn spec_field_val(field: Field, v: u32) -> FieldValue {
    FieldValue { mask: field.mask << field.shift, value: (v & field.mask) << field.shift }
}

/// `reg` with the bits under `fv.mask` replaced by `fv.value`.
pub open spec fn spec_modify(fv: FieldValue, reg: u32) -> u32 {
    (reg & !fv.mask) | fv.value
}

/// Two field values applied together.
pub open spec fn spec_combine(a: FieldValue, b: FieldValue) -> FieldValue {
    FieldValue { mask: a.mask | b.mask, value: a.value | b.value }
}

/// The single-bit field at position `bit`.
pub open spec fn spec_bit_field(bit: u32) -> Field {
    Field { mask: 1, shift: bit }
}

impl Field {
    pub fn new(mask: u32, shift: u32) -> (f: Field)
        requires
            shift < 32,
        ensures
            f == (Field { mask, shift }),
    {
        Field { mask, shift }
    }

    /// The contents of this field in `reg`.
    pub fn read(self, reg: u32) -> (r: u32)
        requires
            self.shift < 32,
        ensures
            r == spec_field_read(self, reg),
    {
        (reg & (self.mask << self.shift)) >> self.shift
    }

    /// Whether any bit of this field is set in `reg`.
    pub fn is_set(self, reg: u32) -> (r: bool)
        requires
            self.shift < 32,
        ensures
            r == (reg & (self.mask << self.shift) != 0),
    {
        reg & (self.mask << self.shift) != 0
    }

    /// The field value that writes `v` (truncated to the field's width).
    pub fn val(self, v: u32) -> (fv: FieldValue)
        requires
            self.shift < 32,
        ensures
            fv == spec_field_val(self, v),
    {
        FieldValue { mask: self.mask << self.shift, value: (v & self.mask) << self.shift }
    }
}

impl FieldValue {
    /// The register value `reg` with this field value merged in.
    pub fn modify(self, reg: u32) -> (r: u32)
        ensures
            r == spec_modify(self, reg),
    {
        (reg & !self.mask) | self.value
    }

    /// This field value together with `other`.
    pub fn plus(self, other: FieldValue) -> (r: FieldValue)
        ensures
            r == spec_combine(self, other),
    {
        FieldValue { mask: self.mask | other.mask, value: self.value | other.value }
    }
}

/// The field value that sets (`on`) or clears the single bit `bit`.
pub fn bit_value(bit: u32, on: bool) -> (fv: FieldValue)
    requires
        bit < 32,
    ensures
        fv == spec_field_val(spec_bit_field(bit), if on { 1u32 } else { 0u32 }),
        fv.mask == 1u32 << bit,
        fv.value == if on { 1u32 << bit } else { 0u32 },
{
    let v: u32 = if on { 1 } else { 0 };
    let fv = Field::new(1, bit).val(v);
    assert((1u32 & 1u32) << bit == 1u32 << bit) by (bit_vector);
    assert((0u32 & 1u32) << bit == 0u32) by (bit_vector)
        requires bit < 32;
    fv
}

/// Reading a field back after a value was merged into it gives that value
/// (truncated to the field), and the bits outside the field are untouched.
pub proof fn lemma_modify_then_read(field: Field, v: u32, reg: u32)
    requires
        field.shift < 32,
    ensures
        spec_field_read(field, spec_modify(spec_field_val(field, v), reg))
            == spec_field_read(field, spec_field_val(field, v).value),
        spec_field_read(field, spec_modify(spec_field_val(field, v), reg))
            == (((v & field.mask) << field.shift) >> field.shift),
        spec_modify(spec_field_val(field, v), reg) & !(field.mask << field.shift)
            == reg & !(field.mask << field.shift),
{
    let m = field.mask;
    let s = field.shift;
    assert(((((reg & !(m << s)) | ((v & m) << s)) & (m << s)) >> s) == ((((v & m) << s) & (m << s))
        >> s)) by (bit_vector);
    assert(((((v & m) << s) & (m << s)) >> s) == (((v & m) << s) >> s)) by (bit_vector);
    assert((((reg & !(m << s)) | ((v & m) << s)) & !(m << s)) == (reg & !(m << s))) by (bit_vector);
}

/// Merging a single-bit value leaves exactly that bit set as asked and all
/// other bits as they were.
pub proof fn lemma_bit_value_modify(bit: u32, on: bool, reg: u32)
    requires
        bit < 32,
    ensures
        ({
            let r = spec_modify(
                spec_field_val(spec_bit_field(bit), if on { 1u32 } else { 0u32 }),
                reg,
            );
            &&& (r & (1u32 << bit) != 0) == on
            &&& r & !(1u32 << bit) == reg & !(1u32 << bit)
        }),
{
    let v: u32 = if on { 1 } else { 0 };
    assert(((reg & !(1u32 << bit)) | ((v & 1u32) << bit)) & (1u32 << bit) != 0 <==> v == 1) by (bit_vector)
        requires bit < 32, v == 0 || v == 1;
    assert(((reg & !(1u32 << bit)) | ((v & 1u32) << bit)) & !(1u32 << bit) == reg & !(1u32 << bit)) by (bit_vector);
}

} // verus!
