//! The exact texts of the pass and fail messages, and verified builders for
//! the ones that are assembled from field names and values.

use vstd::prelude::*;
use vstd::string::StringExecFns;
use crate::text::spec_i64_str;
use crate::text::i64_to_string;

verus! {

/// `'<key>' key is missing`
pub open spec fn msg_key_missing(key: Seq<char>) -> Seq<char> {
    "'"@ + key + "' key is missing"@
}

/// `<key> is present: <value>`
pub open spec fn msg_key_present_value(key: Seq<char>, value: Seq<char>) -> Seq<char> {
    key + " is present: "@ + value
}

/// `<key> is present`
pub open spec fn msg_key_present(key: Seq<char>) -> Seq<char> {
    key + " is present"@
}

/// `key <key>: known value '<value>'`
pub open spec fn msg_known_value(key: Seq<char>, value: Seq<char>) -> Seq<char> {
    "key "@ + key + ": known value '"@ + value + "'"@
}

/// `key <key>: unknown value '<value>' (typo, or item file needed)`
pub open spec fn msg_unknown_value(key: Seq<char>, value: Seq<char>) -> Seq<char> {
    "key "@ + key + ": unknown value '"@ + value + "' (typo, or item file needed)"@
}

/// `key <key>: value is not a string`
pub open spec fn msg_value_not_string(key: Seq<char>) -> Seq<char> {
    "key "@ + key + ": value is not a string"@
}

/// `<key>: <value> is an unknown value`
pub open spec fn msg_unknown_list_value(key: Seq<char>, value: Seq<char>) -> Seq<char> {
    key + ": "@ + value + " is an unknown value"@
}

/// `<key> values are known`
pub open spec fn msg_values_known(key: Seq<char>) -> Seq<char> {
    key + " values are known"@
}

/// `<key> is not a list`
pub open spec fn msg_not_a_list(key: Seq<char>) -> Seq<char> {
    key + " is not a list"@
}

/// `loop '<name>' has new position value: <p>`
pub open spec fn msg_new_position(name: Seq<char>, p: int) -> Seq<char> {
    "loop '"@ + name + "' has new position value: "@ + spec_i64_str(p)
}

/// `loop '<name>' has duplicate position value: <p>`
pub open spec fn msg_duplicate_position(name: Seq<char>, p: int) -> Seq<char> {
    "loop '"@ + name + "' has duplicate position value: "@ + spec_i64_str(p)
}

/// `loop '<name>' is missing a position value`
pub open spec fn msg_missing_position(name: Seq<char>) -> Seq<char> {
    "loop '"@ + name + "' is missing a position value"@
}

/// `loop '<name>' position <p>: linked-from position not found`
pub open spec fn msg_link_not_found(name: Seq<char>, p: int) -> Seq<char> {
    "loop '"@ + name + "' position "@ + spec_i64_str(p) + ": linked-from position not found"@
}

/// `loop '<name>' position <p>: linked to loop with same or higher distance value`
pub open spec fn msg_link_distance(name: Seq<char>, p: int) -> Seq<char> {
    "loop '"@ + name + "' position "@ + spec_i64_str(p)
        + ": linked to loop with same or higher distance value"@
}

/// `Synthesis key is missing.`
pub open spec fn msg_synthesis_missing() -> Seq<char> {
    "Synthesis key is missing."@
}

/// `Material Loops key is missing.`
pub open spec fn msg_loops_missing() -> Seq<char> {
    "Material Loops key is missing."@
}

/// `Material Loops key is not a list.`
pub open spec fn msg_loops_not_list() -> Seq<char> {
    "Material Loops key is not a list."@
}

/// `Malformed material loop`
pub open spec fn msg_malformed_loop() -> Seq<char> {
    "Malformed material loop"@
}

/// `<prefix>: <message>`
pub open spec fn msg_prefixed(prefix: Seq<char>, m: Seq<char>) -> Seq<char> {
    prefix + ": "@ + m
}

pub(crate) fn build_key_missing(key: &str) -> (r: String)
    ensures
        r@ == msg_key_missing(key@),
{
    let mut s = "'".to_owned();
    s.append(key);
    s.append("' key is missing");
    s
}

pub(crate) fn build_key_present_value(key: &str, value: &str) -> (r: String)
    ensures
        r@ == msg_key_present_value(key@, value@),
{
    let mut s = key.to_owned();
    s.append(" is present: ");
    s.append(value);
    s
}

pub(crate) fn build_key_present(key: &str) -> (r: String)
    ensures
        r@ == msg_key_present(key@),
{
    let mut s = key.to_owned();
    s.append(" is present");
    s
}

pub(crate) fn build_known_value(key: &str, value: &str) -> (r: String)
    ensures
        r@ == msg_known_value(key@, value@),
{
    let mut s = "key ".to_owned();
    s.append(key);
    s.append(": known value '");
    s.append(value);
    s.append("'");
    s
}

pub(crate) fn build_unknown_value(key: &str, value: &str) -> (r: String)
    ensures
        r@ == msg_unknown_value(key@, value@),
{
    let mut s = "key ".to_owned();
    s.append(key);
    s.append(": unknown value '");
    s.append(value);
    s.append("' (typo, or item file needed)");
    s
}

pub(crate) fn build_value_not_string(key: &str) -> (r: String)
    ensures
        r@ == msg_value_not_string(key@),
{
    let mut s = "key ".to_owned();
    s.append(key);
    s.append(": value is not a string");
    s
}

pub(crate) fn build_unknown_list_value(key: &str, value: &str) -> (r: String)
    ensures
        r@ == msg_unknown_list_value(key@, value@),
{
    let mut s = key.to_owned();
    s.append(": ");
    s.append(value);
    s.append(" is an unknown value");
    s
}

pub(crate) fn build_values_known(key: &str) -> (r: String)
    ensures
        r@ == msg_values_known(key@),
{
    let mut s = key.to_owned();
    s.append(" values are known");
    s
}

pub(crate) fn build_not_a_list(key: &str) -> (r: String)
    ensures
        r@ == msg_not_a_list(key@),
{
    let mut s = key.to_owned();
    s.append(" is not a list");
    s
}

pub(crate) fn build_new_position(name: &str, p: i64) -> (r: String)
    ensures
        r@ == msg_new_position(name@, p as int),
{
    let mut s = "loop '".to_owned();
    s.append(name);
    s.append("' has new position value: ");
    s.append(i64_to_string(p).as_str());
    s
}

pub(crate) fn build_duplicate_position(name: &str, p: i64) -> (r: String)
    ensures
        r@ == msg_duplicate_position(name@, p as int),
{
    let mut s = "loop '".to_owned();
    s.append(name);
    s.append("' has duplicate position value: ");
    s.append(i64_to_string(p).as_str());
    s
}

pub(crate) fn build_missing_position(name: &str) -> (r: String)
    ensures
        r@ == msg_missing_position(name@),
{
    let mut s = "loop '".to_owned();
    s.append(name);
    s.append("' is missing a position value");
    s
}

pub(crate) fn build_link_not_found(name: &str, p: i64) -> (r: String)
    ensures
        r@ == msg_link_not_found(name@, p as int),
{
    let mut s = "loop '".to_owned();
    s.append(name);
    s.append("' position ");
    s.append(i64_to_string(p).as_str());
    s.append(": linked-from position not found");
    s
}

pub(crate) fn build_link_distance(name: &str, p: i64) -> (r: String)
    ensures
        r@ == msg_link_distance(name@, p as int),
{
    let mut s = "loop '".to_owned();
    s.append(name);
    s.append("' position ");
    s.append(i64_to_string(p).as_str());
    s.append(": linked to loop with same or higher distance value");
    s
}

pub(crate) fn build_prefixed(prefix: &str, m: &str) -> (r: String)
    ensures
        r@ == msg_prefixed(prefix@, m@),
{
    let mut s = prefix.to_owned();
    s.append(": ");
    s.append(m);
    s
}

} // verus!
