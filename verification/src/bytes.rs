//! Byte-level building blocks: the literal byte sequences the protocol
//! speaks of (paths, header names, body fragments), each as a spec-level
//! sequence with a matching executable constructor, and byte comparison.

use vstd::prelude::*;

verus! {

/// Bytes of `/`.
pub open spec fn path_root() -> Seq<u8> {
    seq![47u8]
}

/// Builds the byte vector whose view is `path_root()`.
pub fn path_root_vec() -> (r: Vec<u8>)
    ensures
        r@ == path_root(),
{
    let mut v: Vec<u8> = Vec::new();
    v.push(47);
    assert(v@ =~= path_root());
    v
}

/// Bytes of `/html`.
pub open spec fn path_html() -> Seq<u8> {
    seq![47u8, 104u8, 116u8, 109u8, 108u8]
}

/// Builds the byte vector whose view is `path_html()`.
pub fn path_html_vec() -> (r: Vec<u8>)
    ensures
        r@ == path_html(),
{
    let mut v: Vec<u8> = Vec::new();
    v.push(47);
    v.push(104);
    v.push(116);
    v.push(109);
    v.push(108);
    assert(v@ =~= path_html());
    v
}

/// Bytes of `/json`.
pub open spec fn path_json() -> Seq<u8> {
    seq![47u8, 106u8, 115u8, 111u8, 110u8]
}

/// Builds the byte vector whose view is `path_json()`.
pub fn path_json_vec() -> (r: Vec<u8>)
    ensures
        r@ == path_json(),
{
    let mut v: Vec<u8> = Vec::new();
    v.push(47);
    v.push(106);
    v.push(115);
    v.push(111);
    v.push(110);
    assert(v@ =~= path_json());
    v
}

/// Bytes of `/rand`.
pub open spec fn path_rand() -> Seq<u8> {
    seq![47u8, 114u8, 97u8, 110u8, 100u8]
}

/// Builds the byte vector whose view is `path_rand()`.
pub fn path_rand_vec() -> (r: Vec<u8>)
    ensures
        r@ == path_rand(),
{
    let mut v: Vec<u8> = Vec::new();
    v.push(47);
    v.push(114);
    v.push(97);
    v.push(110);
    v.push(100);
    assert(v@ =~= path_rand());
    v
}

/// Bytes of `/404`.
pub open spec fn path_404() -> Seq<u8> {
    seq![47u8, 52u8, 48u8, 52u8]
}

/// Builds the byte vector whose view is `path_404()`.
pub fn path_404_vec() -> (r: Vec<u8>)
    ensures
        r@ == path_404(),
{
    let mut v: Vec<u8> = Vec::new();
    v.push(47);
    v.push(52);
    v.push(48);
    v.push(52);
    assert(v@ =~= path_404());
    v
}

/// Bytes of `/500`.
pub open spec fn path_500() -> Seq<u8> {
    seq![47u8, 53u8, 48u8, 48u8]
}

/// Builds the byte vector whose view is `path_500()`.
pub fn path_500_vec() -> (r: Vec<u8>)
    ensures
        r@ == path_500(),
{
    let mut v: Vec<u8> = Vec::new();
    v.push(47);
    v.push(53);
    v.push(48);
    v.push(48);
    assert(v@ =~= path_500());
    v
}

/// Bytes of `Hello, world!`.
pub open spec fn hello_body() -> Seq<u8> {
    seq![72u8, 101u8, 108u8, 108u8, 111u8, 44u8, 32u8, 119u8, 111u8, 114u8, 108u8, 100u8, 33u8]
}

/// Builds the byte vector whose view is `hello_body()`.
pub fn hello_body_vec() -> (r: Vec<u8>)
    ensures
        r@ == hello_body(),
{
    let mut v: Vec<u8> = Vec::new();
    v.push(72);
    v.push(101);
    v.push(108);
    v.push(108);
    v.push(111);
    v.push(44);
    v.push(32);
    v.push(119);
    v.push(111);
    v.push(114);
    v.push(108);
    v.push(100);
    v.push(33);
    assert(v@ =~= hello_body());
    v
}

/// Bytes of `500`.
pub open spec fn stub_500_body() -> Seq<u8> {
    seq![53u8, 48u8, 48u8]
}

/// Builds the byte vector whose view is `stub_500_body()`.
pub fn stub_500_body_vec() -> (r: Vec<u8>)
    ensures
        r@ == stub_500_body(),
{
    let mut v: Vec<u8> = Vec::new();
    v.push(53);
    v.push(48);
    v.push(48);
    assert(v@ =~= stub_500_body());
    v
}

/// Bytes of `authorization`.
pub open spec fn auth_header_name() -> Seq<u8> {
    seq![97u8, 117u8, 116u8, 104u8, 111u8, 114u8, 105u8, 122u8, 97u8, 116u8, 105u8, 111u8, 110u8]
}

/// Builds the byte vector whose view is `auth_header_name()`.
pub fn auth_header_name_vec() -> (r: Vec<u8>)
    ensures
        r@ == auth_header_name(),
{
    let mut v: Vec<u8> = Vec::new();
    v.push(97);
    v.push(117);
    v.push(116);
    v.push(104);
    v.push(111);
    v.push(114);
    v.push(105);
    v.push(122);
    v.push(97);
    v.push(116);
    v.push(105);
    v.push(111);
    v.push(110);
    assert(v@ =~= auth_header_name());
    v
}

/// Bytes of `content-length`.
pub open spec fn content_length_name() -> Seq<u8> {
    seq![99u8, 111u8, 110u8, 116u8, 101u8, 110u8, 116u8, 45u8, 108u8, 101u8, 110u8, 103u8, 116u8, 104u8]
}

/// Builds the byte vector whose view is `content_length_name()`.
pub fn content_length_name_vec() -> (r: Vec<u8>)
    ensures
        r@ == content_length_name(),
{
    let mut v: Vec<u8> = Vec::new();
    v.push(99);
    v.push(111);
    v.push(110);
    v.push(116);
    v.push(101);
    v.push(110);
    v.push(116);
    v.push(45);
    v.push(108);
    v.push(101);
    v.push(110);
    v.push(103);
    v.push(116);
    v.push(104);
    assert(v@ =~= content_length_name());
    v
}

/// Bytes of `GBA`.
pub open spec fn auth_token() -> Seq<u8> {
    seq![71u8, 66u8, 65u8]
}

/// Builds the byte vector whose view is `auth_token()`.
pub fn auth_token_vec() -> (r: Vec<u8>)
    ensures
        r@ == auth_token(),
{
    let mut v: Vec<u8> = Vec::new();
    v.push(71);
    v.push(66);
    v.push(65);
    assert(v@ =~= auth_token());
    v
}

/// Bytes of `title`.
pub open spec fn key_title() -> Seq<u8> {
    seq![116u8, 105u8, 116u8, 108u8, 101u8]
}

/// Builds the byte vector whose view is `key_title()`.
pub fn key_title_vec() -> (r: Vec<u8>)
    ensures
        r@ == key_title(),
{
    let mut v: Vec<u8> = Vec::new();
    v.push(116);
    v.push(105);
    v.push(116);
    v.push(108);
    v.push(101);
    assert(v@ =~= key_title());
    v
}

/// Bytes of `description`.
pub open spec fn key_description() -> Seq<u8> {
    seq![100u8, 101u8, 115u8, 99u8, 114u8, 105u8, 112u8, 116u8, 105u8, 111u8, 110u8]
}

/// Builds the byte vector whose view is `key_description()`.
pub fn key_description_vec() -> (r: Vec<u8>)
    ensures
        r@ == key_description(),
{
    let mut v: Vec<u8> = Vec::new();
    v.push(100);
    v.push(101);
    v.push(115);
    v.push(99);
    v.push(114);
    v.push(105);
    v.push(112);
    v.push(116);
    v.push(105);
    v.push(111);
    v.push(110);
    assert(v@ =~= key_description());
    v
}

/// Bytes of `start`.
pub open spec fn key_start() -> Seq<u8> {
    seq![115u8, 116u8, 97u8, 114u8, 116u8]
}

/// Builds the byte vector whose view is `key_start()`.
pub fn key_start_vec() -> (r: Vec<u8>)
    ensures
        r@ == key_start(),
{
    let mut v: Vec<u8> = Vec::new();
    v.push(115);
    v.push(116);
    v.push(97);
    v.push(114);
    v.push(116);
    assert(v@ =~= key_start());
    v
}

/// Bytes of `end`.
pub open spec fn key_end() -> Seq<u8> {
    seq![101u8, 110u8, 100u8]
}

/// Builds the byte vector whose view is `key_end()`.
pub fn key_end_vec() -> (r: Vec<u8>)
    ensures
        r@ == key_end(),
{
    let mut v: Vec<u8> = Vec::new();
    v.push(101);
    v.push(110);
    v.push(100);
    assert(v@ =~= key_end());
    v
}

/// Bytes of `<h1>Random Number: `.
pub open spec fn rand_prefix() -> Seq<u8> {
    seq![60u8, 104u8, 49u8, 62u8, 82u8, 97u8, 110u8, 100u8, 111u8, 109u8, 32u8, 78u8, 117u8, 109u8, 98u8, 101u8, 114u8, 58u8, 32u8]
}

/// Builds the byte vector whose view is `rand_prefix()`.
pub fn rand_prefix_vec() -> (r: Vec<u8>)
    ensures
        r@ == rand_prefix(),
{
    let mut v: Vec<u8> = Vec::new();
    v.push(60);
    v.push(104);
    v.push(49);
    v.push(62);
    v.push(82);
    v.push(97);
    v.push(110);
    v.push(100);
    v.push(111);
    v.push(109);
    v.push(32);
    v.push(78);
    v.push(117);
    v.push(109);
    v.push(98);
    v.push(101);
    v.push(114);
    v.push(58);
    v.push(32);
    assert(v@ =~= rand_prefix());
    v
}

/// Bytes of `</h1>`.
pub open spec fn rand_suffix() -> Seq<u8> {
    seq![60u8, 47u8, 104u8, 49u8, 62u8]
}

/// Builds the byte vector whose view is `rand_suffix()`.
pub fn rand_suffix_vec() -> (r: Vec<u8>)
    ensures
        r@ == rand_suffix(),
{
    let mut v: Vec<u8> = Vec::new();
    v.push(60);
    v.push(47);
    v.push(104);
    v.push(49);
    v.push(62);
    assert(v@ =~= rand_suffix());
    v
}

/// Bytes of `<html><body><h1>Hello from the static page!</h1></body></html>`.
pub open spec fn html_doc() -> Seq<u8> {
    seq![60u8, 104u8, 116u8, 109u8, 108u8, 62u8, 60u8, 98u8, 111u8, 100u8, 121u8, 62u8, 60u8, 104u8, 49u8, 62u8, 72u8, 101u8, 108u8, 108u8, 111u8, 32u8, 102u8, 114u8, 111u8, 109u8, 32u8, 116u8, 104u8, 101u8, 32u8, 115u8, 116u8, 97u8, 116u8, 105u8, 99u8, 32u8, 112u8, 97u8, 103u8, 101u8, 33u8, 60u8, 47u8, 104u8, 49u8, 62u8, 60u8, 47u8, 98u8, 111u8, 100u8, 121u8, 62u8, 60u8, 47u8, 104u8, 116u8, 109u8, 108u8, 62u8]
}

/// Builds the byte vector whose view is `html_doc()`.
pub fn html_doc_vec() -> (r: Vec<u8>)
    ensures
        r@ == html_doc(),
{
    let mut v: Vec<u8> = Vec::new();
    v.push(60);
    v.push(104);
    v.push(116);
    v.push(109);
    v.push(108);
    v.push(62);
    v.push(60);
    v.push(98);
    v.push(111);
    v.push(100);
    v.push(121);
    v.push(62);
    v.push(60);
    v.push(104);
    v.push(49);
    v.push(62);
    v.push(72);
    v.push(101);
    v.push(108);
    v.push(108);
    v.push(111);
    v.push(32);
    v.push(102);
    v.push(114);
    v.push(111);
    v.push(109);
    v.push(32);
    v.push(116);
    v.push(104);
    v.push(101);
    v.push(32);
    v.push(115);
    v.push(116);
    v.push(97);
    v.push(116);
    v.push(105);
    v.push(99);
    v.push(32);
    v.push(112);
    v.push(97);
    v.push(103);
    v.push(101);
    v.push(33);
    v.push(60);
    v.push(47);
    v.push(104);
    v.push(49);
    v.push(62);
    v.push(60);
    v.push(47);
    v.push(98);
    v.push(111);
    v.push(100);
    v.push(121);
    v.push(62);
    v.push(60);
    v.push(47);
    v.push(104);
    v.push(116);
    v.push(109);
    v.push(108);
    v.push(62);
    assert(v@ =~= html_doc());
    v
}

/// Byte-for-byte equality of two byte vectors.
pub fn bytes_eq(a: &Vec<u8>, b: &Vec<u8>) -> (r: bool)
    ensures
        r == (a@ == b@),
{
    if a.len() != b.len() {
        return false;
    }
    let mut i: usize = 0;
    while i < a.len()
        invariant
            0 <= i <= a@.len(),
            a@.len() == b@.len(),
            forall|j: int| 0 <= j < i ==> a@[j] == b@[j],
        decreases a@.len() - i,
    {
        if a[i] != b[i] {
            return false;
        }
        i += 1;
    }
    assert(a@ =~= b@);
    true
}

} // verus!
