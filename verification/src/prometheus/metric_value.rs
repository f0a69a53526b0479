use crate::prometheus::decimal::{
    decimal_text, lemma_decimal_text_reads_back, lemma_signed_decimal_text_reads_back, reads_back_as,
    render_signed, render_unsigned, signed_decimal_text,
};
use vstd::prelude::*;

verus! {

/// A number that a Prometheus sample can carry, with the text that the
/// exposition format writes for it.
pub trait MetricValue {
    /// The text written for the value.
    spec fn value_text(&self) -> Seq<char>;

    /// Writes the value.
    fn render_value(&self) -> (s: String)
        ensures
            s@ == self.value_text(),
    ;
}

impl MetricValue for u8 {
    open spec fn value_text(&self) -> Seq<char> {
        decimal_text(*self as nat)
    }

    fn render_value(&self) -> (s: String) {
        render_unsigned(*self as u128)
    }
}

impl MetricValue for u16 {
    open spec fn value_text(&self) -> Seq<char> {
        decimal_text(*self as nat)
    }

    fn render_value(&self) -> (s: String) {
        render_unsigned(*self as u128)
    }
}

impl MetricValue for u32 {
    open spec fn value_text(&self) -> Seq<char> {
        decimal_text(*self as nat)
    }

    fn render_value(&self) -> (s: String) {
        render_unsigned(*self as u128)
    }
}

impl MetricValue for u64 {
    open spec fn value_text(&self) -> Seq<char> {
        decimal_text(*self as nat)
    }

    fn render_value(&self) -> (s: String) {
        render_unsigned(*self as u128)
    }
}

impl MetricValue for u128 {
    open spec fn value_text(&self) -> Seq<char> {
        decimal_text(*self as nat)
    }

    fn render_value(&self) -> (s: String) {
        render_unsigned(*self as u128)
    }
}

impl MetricValue for usize {
    open spec fn value_text(&self) -> Seq<char> {
        decimal_text(*self as nat)
    }

    fn render_value(&self) -> (s: String) {
        render_unsigned(*self as u128)
    }
}

impl MetricValue for i8 {
    open spec fn value_text(&self) -> Seq<char> {
        signed_decimal_text(*self as int)
    }

    fn render_value(&self) -> (s: String) {
        render_signed(*self as i128)
    }
}

impl MetricValue for i16 {
    open spec fn value_text(&self) -> Seq<char> {
        signed_decimal_text(*self as int)
    }

    fn render_value(&self) -> (s: String) {
        render_signed(*self as i128)
    }
}

impl MetricValue for i32 {
    open spec fn value_text(&self) -> Seq<char> {
        signed_decimal_text(*self as int)
    }

    fn render_value(&self) -> (s: String) {
        render_signed(*self as i128)
    }
}

impl MetricValue for i64 {
    open spec fn value_text(&self) -> Seq<char> {
        signed_decimal_text(*self as int)
    }

    fn render_value(&self) -> (s: String) {
        render_signed(*self as i128)
    }
}

impl MetricValue for i128 {
    open spec fn value_text(&self) -> Seq<char> {
        signed_decimal_text(*self as int)
    }

    fn render_value(&self) -> (s: String) {
        render_signed(*self as i128)
    }
}

impl MetricValue for isize {
    open spec fn value_text(&self) -> Seq<char> {
        signed_decimal_text(*self as int)
    }

    fn render_value(&self) -> (s: String) {
        render_signed(*self as i128)
    }
}

/// The text written for a `u8` is its decimal digits, reading back as the value.
pub proof fn lemma_u8_value_text_reads_back(v: u8)
    ensures
        reads_back_as(v.value_text(), v as int),
{
    lemma_decimal_text_reads_back(v as nat);
}

/// The text written for a `u16` is its decimal digits, reading back as the value.
pub proof fn lemma_u16_value_text_reads_back(v: u16)
    ensures
        reads_back_as(v.value_text(), v as int),
{
    lemma_decimal_text_reads_back(v as nat);
}

/// The text written for a `u32` is its decimal digits, reading back as the value.
pub proof fn lemma_u32_value_text_reads_back(v: u32)
    ensures
        reads_back_as(v.value_text(), v as int),
{
    lemma_decimal_text_reads_back(v as nat);
}

/// The text written for a `u64` is its decimal digits, reading back as the value.
pub proof fn lemma_u64_value_text_reads_back(v: u64)
    ensures
        reads_back_as(v.value_text(), v as int),
{
    lemma_decimal_text_reads_back(v as nat);
}

/// The text written for a `u128` is its decimal digits, reading back as the value.
pub proof fn lemma_u128_value_text_reads_back(v: u128)
    ensures
        reads_back_as(v.value_text(), v as int),
{
    lemma_decimal_text_reads_back(v as nat);
}

/// The text written for a `usize` is its decimal digits, reading back as the value.
pub proof fn lemma_usize_value_text_reads_back(v: usize)
    ensures
        reads_back_as(v.value_text(), v as int),
{
    lemma_decimal_text_reads_back(v as nat);
}

/// The text written for an `i8` carries its sign and reads back as the value.
pub proof fn lemma_i8_value_text_reads_back(v: i8)
    ensures
        reads_back_as(v.value_text(), v as int),
{
    lemma_signed_decimal_text_reads_back(v as int);
}

/// The text written for an `i16` carries its sign and reads back as the value.
pub proof fn lemma_i16_value_text_reads_back(v: i16)
    ensures
        reads_back_as(v.value_text(), v as int),
{
    lemma_signed_decimal_text_reads_back(v as int);
}

/// The text written for an `i32` carries its sign and reads back as the value.
pub proof fn lemma_i32_value_text_reads_back(v: i32)
    ensures
        reads_back_as(v.value_text(), v as int),
{
    lemma_signed_decimal_text_reads_back(v as int);
}

/// The text written for an `i64` carries its sign and reads back as the value.
pub proof fn lemma_i64_value_text_reads_back(v: i64)
    ensures
        reads_back_as(v.value_text(), v as int),
{
    lemma_signed_decimal_text_reads_back(v as int);
}

/// The text written for an `i128` carries its sign and reads back as the value.
pub proof fn lemma_i128_value_text_reads_back(v: i128)
    ensures
        reads_back_as(v.value_text(), v as int),
{
    lemma_signed_decimal_text_reads_back(v as int);
}

/// The text written for an `isize` carries its sign and reads back as the value.
pub proof fn lemma_isize_value_text_reads_back(v: isize)
    ensures
        reads_back_as(v.value_text(), v as int),
{
    lemma_signed_decimal_text_reads_back(v as int);
}

} // verus!
