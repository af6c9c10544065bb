//! The fixed byte strings of the protocol, each as a spec sequence and as an
//! executable vector with the same contents.
use vstd::prelude::*;

verus! {

/// The bytes of `req-hdr`.
pub open spec fn req_hdr() -> Seq<u8> {
    seq![0x72u8, 0x65u8, 0x71u8, 0x2Du8, 0x68u8, 0x64u8, 0x72u8]
}

/// The bytes of `req-hdr`.
pub fn req_hdr_bytes() -> (r: Vec<u8>)
    ensures
        r@ == req_hdr(),
{
    vec![0x72u8, 0x65u8, 0x71u8, 0x2Du8, 0x68u8, 0x64u8, 0x72u8]
}

/// The bytes of `req-body`.
pub open spec fn req_body() -> Seq<u8> {
    seq![0x72u8, 0x65u8, 0x71u8, 0x2Du8, 0x62u8, 0x6Fu8, 0x64u8, 0x79u8]
}

/// The bytes of `req-body`.
pub fn req_body_bytes() -> (r: Vec<u8>)
    ensures
        r@ == req_body(),
{
    vec![0x72u8, 0x65u8, 0x71u8, 0x2Du8, 0x62u8, 0x6Fu8, 0x64u8, 0x79u8]
}

/// The bytes of `res-hdr`.
pub open spec fn res_hdr() -> Seq<u8> {
    seq![0x72u8, 0x65u8, 0x73u8, 0x2Du8, 0x68u8, 0x64u8, 0x72u8]
}

/// The bytes of `res-hdr`.
pub fn res_hdr_bytes() -> (r: Vec<u8>)
    ensures
        r@ == res_hdr(),
{
    vec![0x72u8, 0x65u8, 0x73u8, 0x2Du8, 0x68u8, 0x64u8, 0x72u8]
}

/// The bytes of `res-body`.
pub open spec fn res_body() -> Seq<u8> {
    seq![0x72u8, 0x65u8, 0x73u8, 0x2Du8, 0x62u8, 0x6Fu8, 0x64u8, 0x79u8]
}

/// The bytes of `res-body`.
pub fn res_body_bytes() -> (r: Vec<u8>)
    ensures
        r@ == res_body(),
{
    vec![0x72u8, 0x65u8, 0x73u8, 0x2Du8, 0x62u8, 0x6Fu8, 0x64u8, 0x79u8]
}

/// The bytes of `null-body`.
pub open spec fn null_body() -> Seq<u8> {
    seq![0x6Eu8, 0x75u8, 0x6Cu8, 0x6Cu8, 0x2Du8, 0x62u8, 0x6Fu8, 0x64u8, 0x79u8]
}

/// The bytes of `null-body`.
pub fn null_body_bytes() -> (r: Vec<u8>)
    ensures
        r@ == null_body(),
{
    vec![0x6Eu8, 0x75u8, 0x6Cu8, 0x6Cu8, 0x2Du8, 0x62u8, 0x6Fu8, 0x64u8, 0x79u8]
}

/// The bytes of `opt-body`.
pub open spec fn opt_body() -> Seq<u8> {
    seq![0x6Fu8, 0x70u8, 0x74u8, 0x2Du8, 0x62u8, 0x6Fu8, 0x64u8, 0x79u8]
}

/// The bytes of `opt-body`.
pub fn opt_body_bytes() -> (r: Vec<u8>)
    ensures
        r@ == opt_body(),
{
    vec![0x6Fu8, 0x70u8, 0x74u8, 0x2Du8, 0x62u8, 0x6Fu8, 0x64u8, 0x79u8]
}

/// The bytes of `204`.
pub open spec fn code_204() -> Seq<u8> {
    seq![0x32u8, 0x30u8, 0x34u8]
}

/// The bytes of `204`.
pub fn code_204_bytes() -> (r: Vec<u8>)
    ensures
        r@ == code_204(),
{
    vec![0x32u8, 0x30u8, 0x34u8]
}

/// The bytes of `206`.
pub open spec fn code_206() -> Seq<u8> {
    seq![0x32u8, 0x30u8, 0x36u8]
}

/// The bytes of `206`.
pub fn code_206_bytes() -> (r: Vec<u8>)
    ensures
        r@ == code_206(),
{
    vec![0x32u8, 0x30u8, 0x36u8]
}

/// The bytes of `Encapsulated`.
pub open spec fn encapsulated() -> Seq<u8> {
    seq![0x45u8, 0x6Eu8, 0x63u8, 0x61u8, 0x70u8, 0x73u8, 0x75u8, 0x6Cu8, 0x61u8, 0x74u8, 0x65u8, 0x64u8]
}

/// The bytes of `Encapsulated`.
pub fn encapsulated_bytes() -> (r: Vec<u8>)
    ensures
        r@ == encapsulated(),
{
    vec![0x45u8, 0x6Eu8, 0x63u8, 0x61u8, 0x70u8, 0x73u8, 0x75u8, 0x6Cu8, 0x61u8, 0x74u8, 0x65u8, 0x64u8]
}

/// The bytes of `Preview`.
pub open spec fn preview() -> Seq<u8> {
    seq![0x50u8, 0x72u8, 0x65u8, 0x76u8, 0x69u8, 0x65u8, 0x77u8]
}

/// The bytes of `Preview`.
pub fn preview_bytes() -> (r: Vec<u8>)
    ensures
        r@ == preview(),
{
    vec![0x50u8, 0x72u8, 0x65u8, 0x76u8, 0x69u8, 0x65u8, 0x77u8]
}

/// The bytes of `Allow`.
pub open spec fn allow_name() -> Seq<u8> {
    seq![0x41u8, 0x6Cu8, 0x6Cu8, 0x6Fu8, 0x77u8]
}

/// The bytes of `Allow`.
pub fn allow_name_bytes() -> (r: Vec<u8>)
    ensures
        r@ == allow_name(),
{
    vec![0x41u8, 0x6Cu8, 0x6Cu8, 0x6Fu8, 0x77u8]
}

/// The bytes of `OPTIONS`.
pub open spec fn options() -> Seq<u8> {
    seq![0x4Fu8, 0x50u8, 0x54u8, 0x49u8, 0x4Fu8, 0x4Eu8, 0x53u8]
}

/// The bytes of `OPTIONS`.
pub fn options_bytes() -> (r: Vec<u8>)
    ensures
        r@ == options(),
{
    vec![0x4Fu8, 0x50u8, 0x54u8, 0x49u8, 0x4Fu8, 0x4Eu8, 0x53u8]
}

/// The bytes of `REQMOD`.
pub open spec fn reqmod() -> Seq<u8> {
    seq![0x52u8, 0x45u8, 0x51u8, 0x4Du8, 0x4Fu8, 0x44u8]
}

/// The bytes of `REQMOD`.
pub fn reqmod_bytes() -> (r: Vec<u8>)
    ensures
        r@ == reqmod(),
{
    vec![0x52u8, 0x45u8, 0x51u8, 0x4Du8, 0x4Fu8, 0x44u8]
}

/// The bytes of `RESPMOD`.
pub open spec fn respmod() -> Seq<u8> {
    seq![0x52u8, 0x45u8, 0x53u8, 0x50u8, 0x4Du8, 0x4Fu8, 0x44u8]
}

/// The bytes of `RESPMOD`.
pub fn respmod_bytes() -> (r: Vec<u8>)
    ensures
        r@ == respmod(),
{
    vec![0x52u8, 0x45u8, 0x53u8, 0x50u8, 0x4Du8, 0x4Fu8, 0x44u8]
}

/// The bytes of `ICAP/1.0`.
pub open spec fn icap_10() -> Seq<u8> {
    seq![0x49u8, 0x43u8, 0x41u8, 0x50u8, 0x2Fu8, 0x31u8, 0x2Eu8, 0x30u8]
}

/// The bytes of `ICAP/1.0`.
pub fn icap_10_bytes() -> (r: Vec<u8>)
    ensures
        r@ == icap_10(),
{
    vec![0x49u8, 0x43u8, 0x41u8, 0x50u8, 0x2Fu8, 0x31u8, 0x2Eu8, 0x30u8]
}

/// The bytes of `HTTP/1.0`.
pub open spec fn http_10() -> Seq<u8> {
    seq![0x48u8, 0x54u8, 0x54u8, 0x50u8, 0x2Fu8, 0x31u8, 0x2Eu8, 0x30u8]
}

/// The bytes of `HTTP/1.0`.
pub fn http_10_bytes() -> (r: Vec<u8>)
    ensures
        r@ == http_10(),
{
    vec![0x48u8, 0x54u8, 0x54u8, 0x50u8, 0x2Fu8, 0x31u8, 0x2Eu8, 0x30u8]
}

/// The bytes of `HTTP/1.1`.
pub open spec fn http_11() -> Seq<u8> {
    seq![0x48u8, 0x54u8, 0x54u8, 0x50u8, 0x2Fu8, 0x31u8, 0x2Eu8, 0x31u8]
}

/// The bytes of `HTTP/1.1`.
pub fn http_11_bytes() -> (r: Vec<u8>)
    ensures
        r@ == http_11(),
{
    vec![0x48u8, 0x54u8, 0x54u8, 0x50u8, 0x2Fu8, 0x31u8, 0x2Eu8, 0x31u8]
}

/// The bytes of `\r\n`.
pub open spec fn crlf() -> Seq<u8> {
    seq![0x0Du8, 0x0Au8]
}

/// The bytes of `\r\n`.
pub fn crlf_bytes() -> (r: Vec<u8>)
    ensures
        r@ == crlf(),
{
    vec![0x0Du8, 0x0Au8]
}

/// The bytes of `: `.
pub open spec fn colon_sp() -> Seq<u8> {
    seq![0x3Au8, 0x20u8]
}

/// The bytes of `: `.
pub fn colon_sp_bytes() -> (r: Vec<u8>)
    ensures
        r@ == colon_sp(),
{
    vec![0x3Au8, 0x20u8]
}

/// The bytes of `null-body=0`.
pub open spec fn null_body_zero() -> Seq<u8> {
    seq![0x6Eu8, 0x75u8, 0x6Cu8, 0x6Cu8, 0x2Du8, 0x62u8, 0x6Fu8, 0x64u8, 0x79u8, 0x3Du8, 0x30u8]
}

/// The bytes of `null-body=0`.
pub fn null_body_zero_bytes() -> (r: Vec<u8>)
    ensures
        r@ == null_body_zero(),
{
    vec![0x6Eu8, 0x75u8, 0x6Cu8, 0x6Cu8, 0x2Du8, 0x62u8, 0x6Fu8, 0x64u8, 0x79u8, 0x3Du8, 0x30u8]
}

/// The bytes of `Methods`.
pub open spec fn methods() -> Seq<u8> {
    seq![0x4Du8, 0x65u8, 0x74u8, 0x68u8, 0x6Fu8, 0x64u8, 0x73u8]
}

/// The bytes of `Methods`.
pub fn methods_bytes() -> (r: Vec<u8>)
    ensures
        r@ == methods(),
{
    vec![0x4Du8, 0x65u8, 0x74u8, 0x68u8, 0x6Fu8, 0x64u8, 0x73u8]
}

/// The bytes of `REQMOD, RESPMOD`.
pub open spec fn methods_value() -> Seq<u8> {
    seq![0x52u8, 0x45u8, 0x51u8, 0x4Du8, 0x4Fu8, 0x44u8, 0x2Cu8, 0x20u8, 0x52u8, 0x45u8, 0x53u8, 0x50u8, 0x4Du8, 0x4Fu8, 0x44u8]
}

/// The bytes of `REQMOD, RESPMOD`.
pub fn methods_value_bytes() -> (r: Vec<u8>)
    ensures
        r@ == methods_value(),
{
    vec![0x52u8, 0x45u8, 0x51u8, 0x4Du8, 0x4Fu8, 0x44u8, 0x2Cu8, 0x20u8, 0x52u8, 0x45u8, 0x53u8, 0x50u8, 0x4Du8, 0x4Fu8, 0x44u8]
}

/// The bytes of `204, 206`.
pub open spec fn allow_value() -> Seq<u8> {
    seq![0x32u8, 0x30u8, 0x34u8, 0x2Cu8, 0x20u8, 0x32u8, 0x30u8, 0x36u8]
}

/// The bytes of `204, 206`.
pub fn allow_value_bytes() -> (r: Vec<u8>)
    ensures
        r@ == allow_value(),
{
    vec![0x32u8, 0x30u8, 0x34u8, 0x2Cu8, 0x20u8, 0x32u8, 0x30u8, 0x36u8]
}

/// The bytes of `ISTag`.
pub open spec fn istag() -> Seq<u8> {
    seq![0x49u8, 0x53u8, 0x54u8, 0x61u8, 0x67u8]
}

/// The bytes of `ISTag`.
pub fn istag_bytes() -> (r: Vec<u8>)
    ensures
        r@ == istag(),
{
    vec![0x49u8, 0x53u8, 0x54u8, 0x61u8, 0x67u8]
}

/// The bytes of `"r-bk-icap"`.
pub open spec fn istag_value() -> Seq<u8> {
    seq![0x22u8, 0x72u8, 0x2Du8, 0x62u8, 0x6Bu8, 0x2Du8, 0x69u8, 0x63u8, 0x61u8, 0x70u8, 0x22u8]
}

/// The bytes of `"r-bk-icap"`.
pub fn istag_value_bytes() -> (r: Vec<u8>)
    ensures
        r@ == istag_value(),
{
    vec![0x22u8, 0x72u8, 0x2Du8, 0x62u8, 0x6Bu8, 0x2Du8, 0x69u8, 0x63u8, 0x61u8, 0x70u8, 0x22u8]
}

/// The bytes of `Server`.
pub open spec fn server() -> Seq<u8> {
    seq![0x53u8, 0x65u8, 0x72u8, 0x76u8, 0x65u8, 0x72u8]
}

/// The bytes of `Server`.
pub fn server_bytes() -> (r: Vec<u8>)
    ensures
        r@ == server(),
{
    vec![0x53u8, 0x65u8, 0x72u8, 0x76u8, 0x65u8, 0x72u8]
}

/// The bytes of `r-bk/icap`.
pub open spec fn server_value() -> Seq<u8> {
    seq![0x72u8, 0x2Du8, 0x62u8, 0x6Bu8, 0x2Fu8, 0x69u8, 0x63u8, 0x61u8, 0x70u8]
}

/// The bytes of `r-bk/icap`.
pub fn server_value_bytes() -> (r: Vec<u8>)
    ensures
        r@ == server_value(),
{
    vec![0x72u8, 0x2Du8, 0x62u8, 0x6Bu8, 0x2Fu8, 0x69u8, 0x63u8, 0x61u8, 0x70u8]
}

/// The bytes of `0`.
pub open spec fn zero() -> Seq<u8> {
    seq![0x30u8]
}

/// The bytes of `0`.
pub fn zero_bytes() -> (r: Vec<u8>)
    ensures
        r@ == zero(),
{
    vec![0x30u8]
}

/// The bytes of `Transfer-Preview`.
pub open spec fn transfer_preview() -> Seq<u8> {
    seq![0x54u8, 0x72u8, 0x61u8, 0x6Eu8, 0x73u8, 0x66u8, 0x65u8, 0x72u8, 0x2Du8, 0x50u8, 0x72u8, 0x65u8, 0x76u8, 0x69u8, 0x65u8, 0x77u8]
}

/// The bytes of `Transfer-Preview`.
pub fn transfer_preview_bytes() -> (r: Vec<u8>)
    ensures
        r@ == transfer_preview(),
{
    vec![0x54u8, 0x72u8, 0x61u8, 0x6Eu8, 0x73u8, 0x66u8, 0x65u8, 0x72u8, 0x2Du8, 0x50u8, 0x72u8, 0x65u8, 0x76u8, 0x69u8, 0x65u8, 0x77u8]
}

/// The bytes of `*`.
pub open spec fn star() -> Seq<u8> {
    seq![0x2Au8]
}

/// The bytes of `*`.
pub fn star_bytes() -> (r: Vec<u8>)
    ensures
        r@ == star(),
{
    vec![0x2Au8]
}

/// The bytes of `Connection`.
pub open spec fn connection() -> Seq<u8> {
    seq![0x43u8, 0x6Fu8, 0x6Eu8, 0x6Eu8, 0x65u8, 0x63u8, 0x74u8, 0x69u8, 0x6Fu8, 0x6Eu8]
}

/// The bytes of `Connection`.
pub fn connection_bytes() -> (r: Vec<u8>)
    ensures
        r@ == connection(),
{
    vec![0x43u8, 0x6Fu8, 0x6Eu8, 0x6Eu8, 0x65u8, 0x63u8, 0x74u8, 0x69u8, 0x6Fu8, 0x6Eu8]
}

/// The bytes of `keep-alive`.
pub open spec fn keep_alive() -> Seq<u8> {
    seq![0x6Bu8, 0x65u8, 0x65u8, 0x70u8, 0x2Du8, 0x61u8, 0x6Cu8, 0x69u8, 0x76u8, 0x65u8]
}

/// The bytes of `keep-alive`.
pub fn keep_alive_bytes() -> (r: Vec<u8>)
    ensures
        r@ == keep_alive(),
{
    vec![0x6Bu8, 0x65u8, 0x65u8, 0x70u8, 0x2Du8, 0x61u8, 0x6Cu8, 0x69u8, 0x76u8, 0x65u8]
}

/// The bytes of `0; use-original-body=0\r\n\r\n`.
pub open spec fn use_original_body() -> Seq<u8> {
    seq![0x30u8, 0x3Bu8, 0x20u8, 0x75u8, 0x73u8, 0x65u8, 0x2Du8, 0x6Fu8, 0x72u8, 0x69u8, 0x67u8, 0x69u8, 0x6Eu8, 0x61u8, 0x6Cu8, 0x2Du8, 0x62u8, 0x6Fu8, 0x64u8, 0x79u8, 0x3Du8, 0x30u8, 0x0Du8, 0x0Au8, 0x0Du8, 0x0Au8]
}

/// The bytes of `0; use-original-body=0\r\n\r\n`.
pub fn use_original_body_bytes() -> (r: Vec<u8>)
    ensures
        r@ == use_original_body(),
{
    vec![0x30u8, 0x3Bu8, 0x20u8, 0x75u8, 0x73u8, 0x65u8, 0x2Du8, 0x6Fu8, 0x72u8, 0x69u8, 0x67u8, 0x69u8, 0x6Eu8, 0x61u8, 0x6Cu8, 0x2Du8, 0x62u8, 0x6Fu8, 0x64u8, 0x79u8, 0x3Du8, 0x30u8, 0x0Du8, 0x0Au8, 0x0Du8, 0x0Au8]
}

/// The bytes of `=0, `.
pub open spec fn eq_zero_sep() -> Seq<u8> {
    seq![0x3Du8, 0x30u8, 0x2Cu8, 0x20u8]
}

/// The bytes of `=0, `.
pub fn eq_zero_sep_bytes() -> (r: Vec<u8>)
    ensures
        r@ == eq_zero_sep(),
{
    vec![0x3Du8, 0x30u8, 0x2Cu8, 0x20u8]
}

/// The bytes of `=`.
pub open spec fn equals_sign() -> Seq<u8> {
    seq![0x3Du8]
}

/// The bytes of `=`.
pub fn equals_sign_bytes() -> (r: Vec<u8>)
    ensures
        r@ == equals_sign(),
{
    vec![0x3Du8]
}

/// The bytes of `Encapsulated: `.
pub open spec fn encapsulated_prefix() -> Seq<u8> {
    seq![0x45u8, 0x6Eu8, 0x63u8, 0x61u8, 0x70u8, 0x73u8, 0x75u8, 0x6Cu8, 0x61u8, 0x74u8, 0x65u8, 0x64u8, 0x3Au8, 0x20u8]
}

/// The bytes of `Encapsulated: `.
pub fn encapsulated_prefix_bytes() -> (r: Vec<u8>)
    ensures
        r@ == encapsulated_prefix(),
{
    vec![0x45u8, 0x6Eu8, 0x63u8, 0x61u8, 0x70u8, 0x73u8, 0x75u8, 0x6Cu8, 0x61u8, 0x74u8, 0x65u8, 0x64u8, 0x3Au8, 0x20u8]
}

/// The bytes of `ISTag: "r-bk-icap"\r\n`.
pub open spec fn istag_line() -> Seq<u8> {
    seq![0x49u8, 0x53u8, 0x54u8, 0x61u8, 0x67u8, 0x3Au8, 0x20u8, 0x22u8, 0x72u8, 0x2Du8, 0x62u8, 0x6Bu8, 0x2Du8, 0x69u8, 0x63u8, 0x61u8, 0x70u8, 0x22u8, 0x0Du8, 0x0Au8]
}

/// The bytes of `ISTag: "r-bk-icap"\r\n`.
pub fn istag_line_bytes() -> (r: Vec<u8>)
    ensures
        r@ == istag_line(),
{
    vec![0x49u8, 0x53u8, 0x54u8, 0x61u8, 0x67u8, 0x3Au8, 0x20u8, 0x22u8, 0x72u8, 0x2Du8, 0x62u8, 0x6Bu8, 0x2Du8, 0x69u8, 0x63u8, 0x61u8, 0x70u8, 0x22u8, 0x0Du8, 0x0Au8]
}

/// The bytes of `Connection: close\r\n`.
pub open spec fn close_line() -> Seq<u8> {
    seq![0x43u8, 0x6Fu8, 0x6Eu8, 0x6Eu8, 0x65u8, 0x63u8, 0x74u8, 0x69u8, 0x6Fu8, 0x6Eu8, 0x3Au8, 0x20u8, 0x63u8, 0x6Cu8, 0x6Fu8, 0x73u8, 0x65u8, 0x0Du8, 0x0Au8]
}

/// The bytes of `Connection: close\r\n`.
pub fn close_line_bytes() -> (r: Vec<u8>)
    ensures
        r@ == close_line(),
{
    vec![0x43u8, 0x6Fu8, 0x6Eu8, 0x6Eu8, 0x65u8, 0x63u8, 0x74u8, 0x69u8, 0x6Fu8, 0x6Eu8, 0x3Au8, 0x20u8, 0x63u8, 0x6Cu8, 0x6Fu8, 0x73u8, 0x65u8, 0x0Du8, 0x0Au8]
}

/// The bytes of `Encapsulated: null-body=0\r\n`.
pub open spec fn null_body_line() -> Seq<u8> {
    seq![0x45u8, 0x6Eu8, 0x63u8, 0x61u8, 0x70u8, 0x73u8, 0x75u8, 0x6Cu8, 0x61u8, 0x74u8, 0x65u8, 0x64u8, 0x3Au8, 0x20u8, 0x6Eu8, 0x75u8, 0x6Cu8, 0x6Cu8, 0x2Du8, 0x62u8, 0x6Fu8, 0x64u8, 0x79u8, 0x3Du8, 0x30u8, 0x0Du8, 0x0Au8]
}

/// The bytes of `Encapsulated: null-body=0\r\n`.
pub fn null_body_line_bytes() -> (r: Vec<u8>)
    ensures
        r@ == null_body_line(),
{
    vec![0x45u8, 0x6Eu8, 0x63u8, 0x61u8, 0x70u8, 0x73u8, 0x75u8, 0x6Cu8, 0x61u8, 0x74u8, 0x65u8, 0x64u8, 0x3Au8, 0x20u8, 0x6Eu8, 0x75u8, 0x6Cu8, 0x6Cu8, 0x2Du8, 0x62u8, 0x6Fu8, 0x64u8, 0x79u8, 0x3Du8, 0x30u8, 0x0Du8, 0x0Au8]
}

/// The bytes of ` `.
pub open spec fn space() -> Seq<u8> {
    seq![0x20u8]
}

/// The bytes of ` `.
pub fn space_bytes() -> (r: Vec<u8>)
    ensures
        r@ == space(),
{
    vec![0x20u8]
}

/// The characters of a byte string that is all ASCII.
pub open spec fn ascii_chars(b: Seq<u8>) -> Seq<char> {
    b.map_values(|c: u8| c as char)
}

/// Relies on `String::from_utf8`: ASCII bytes are valid UTF-8, and each
/// stands for the character of the same code.
#[verifier::external_body]
pub(crate) fn ascii_string(b: Vec<u8>) -> (r: String)
    requires
        forall|k: int| 0 <= k < b@.len() ==> #[trigger] b@[k] < 0x80u8,
    ensures
        r@ == ascii_chars(b@),
{
    String::from_utf8(b).unwrap()
}

} // verus!
