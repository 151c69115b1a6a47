//! Laws that relate the validators to each other and to themselves.
//!
//! Each law is stated over the functions that the contracts of the
//! validators use, so that it holds of whatever the validators return.

use crate::json::{has_distinct_keys, keys_of, JsonView};
use crate::patterns::{
    is_field_name_shape, is_repository_name_shape, is_script_injection, is_server_address_shape,
    is_sql_injection,
};
use crate::text::{lemma_utf8_len_push, utf8_len};
use crate::text::uppercase;
use crate::validation::{
    array_item_verdict, array_verdict, escaped, has_host_labels, is_portable_file_name,
    is_windows_file_name, member_verdict, members_verdict, metadata_verdict, parsed_url,
    sanitized, validated_api_url, validated_entry_id, validated_field_name,
    validated_field_value, validated_file_name, validated_file_size, validated_repository_name,
    validated_server_address, Platform, MAX_FIELD_NAME_LENGTH, MAX_FIELD_VALUE_LENGTH,
    MAX_FILE_SIZE, MAX_REPOSITORY_NAME_LENGTH, MAX_SERVER_ADDRESS_LENGTH,
};
use vstd::prelude::*;

verus! {

/// An accepted entry identifier is positive and at most half of `i64::MAX`.
pub proof fn lemma_accepted_entry_id(id: i64)
    requires
        validated_entry_id(id) is Ok,
    ensures
        1 <= id <= i64::MAX / 2,
{
}

/// An accepted file size is at most the ceiling.
pub proof fn lemma_accepted_file_size(size: u64)
    requires
        validated_file_size(size) is Ok,
    ensures
        size <= MAX_FILE_SIZE,
{
}

/// An accepted repository name takes 1 to 64 bytes, has the shape of a
/// repository name and holds no SQL keyword or metacharacter.
pub proof fn lemma_accepted_repository_name(name: Seq<char>)
    requires
        validated_repository_name(name) is Ok,
    ensures
        1 <= utf8_len(name) <= MAX_REPOSITORY_NAME_LENGTH,
        is_repository_name_shape(name),
        !is_sql_injection(name),
{
    crate::text::lemma_utf8_len_bounds(name);
}

/// An accepted server address takes 1 to 253 bytes, has the shape of a host
/// name, is made of host labels and holds no SQL keyword or metacharacter.
pub proof fn lemma_accepted_server_address(address: Seq<char>)
    requires
        validated_server_address(address) is Ok,
    ensures
        1 <= utf8_len(address) <= MAX_SERVER_ADDRESS_LENGTH,
        is_server_address_shape(address),
        has_host_labels(address),
        !is_sql_injection(address),
{
    crate::text::lemma_utf8_len_bounds(address);
}

/// An accepted URL is not empty, parses with the scheme `https` and a host,
/// and holds no SQL keyword or metacharacter.
pub proof fn lemma_accepted_api_url(url: Seq<char>)
    requires
        validated_api_url(url) is Ok,
    ensures
        url.len() > 0,
        parsed_url(url) == Some(("https"@, true)),
        !is_sql_injection(url),
{
}

/// An accepted field name takes 1 to 128 bytes, has the shape of a field
/// name and holds neither SQL nor script syntax.
pub proof fn lemma_accepted_field_name(name: Seq<char>)
    requires
        validated_field_name(name) is Ok,
    ensures
        1 <= utf8_len(name) <= MAX_FIELD_NAME_LENGTH,
        is_field_name_shape(name),
        !is_sql_injection(name),
        !is_script_injection(name),
{
    crate::text::lemma_utf8_len_bounds(name);
}

/// An accepted file name obeys the portable rules, and on Windows those of
/// Windows.
pub proof fn lemma_accepted_file_name(name: Seq<char>, platform: Platform)
    requires
        validated_file_name(name, platform) is Ok,
    ensures
        is_portable_file_name(name),
        platform is Windows ==> is_windows_file_name(name, uppercase(name)),
{
}

/// Sanitised text holds neither NUL nor SUB.
pub proof fn lemma_sanitized_has_no_controls(text: Seq<char>)
    ensures
        !sanitized(text).contains('\0'),
        !sanitized(text).contains('\x1a'),
    decreases text.len(),
{
    if text.len() > 0 {
        let front = sanitized(text.drop_last());
        let tail = escaped(text.last());
        lemma_sanitized_has_no_controls(text.drop_last());
        assert forall|i: int| 0 <= i < sanitized(text).len() implies sanitized(text)[i] != '\0'
            && sanitized(text)[i] != '\x1a' by {
            if i < front.len() {
                assert(sanitized(text)[i] == front[i]);
                assert(front.contains(front[i]));
            } else {
                assert(sanitized(text)[i] == tail[i - front.len()]);
            }
        }
    }
}

/// An accepted field value took at most 10 KiB and held no script syntax;
/// what is returned for it is its sanitised form, which holds neither NUL
/// nor SUB.
pub proof fn lemma_accepted_field_value(value: Seq<char>)
    requires
        validated_field_value(value) is Ok,
    ensures
        utf8_len(value) <= MAX_FIELD_VALUE_LENGTH,
        !is_script_injection(value),
        validated_field_value(value)->Ok_0 == sanitized(value),
        !sanitized(value).contains('\0'),
        !sanitized(value).contains('\x1a'),
{
    lemma_sanitized_has_no_controls(value);
}

/// An entry identifier that was accepted is accepted again, unchanged.
pub proof fn lemma_entry_id_revalidates(id: i64)
    requires
        validated_entry_id(id) is Ok,
    ensures
        validated_entry_id(id) == Ok::<i64, crate::validation::Rejection>(id),
        validated_entry_id(validated_entry_id(id)->Ok_0) == validated_entry_id(id),
{
}

/// A file size that was accepted is accepted again, unchanged.
pub proof fn lemma_file_size_revalidates(size: u64)
    requires
        validated_file_size(size) is Ok,
    ensures
        validated_file_size(size) == Ok::<u64, crate::validation::Rejection>(size),
        validated_file_size(validated_file_size(size)->Ok_0) == validated_file_size(size),
{
}

/// A repository name that was accepted is the name that was given, and is
/// accepted again with the same result.
pub proof fn lemma_repository_name_revalidates(name: Seq<char>)
    requires
        validated_repository_name(name) is Ok,
    ensures
        validated_repository_name(name)->Ok_0 == name,
        validated_repository_name(validated_repository_name(name)->Ok_0)
            == validated_repository_name(name),
{
}

/// A server address that was accepted is the address that was given, and is
/// accepted again with the same result.
pub proof fn lemma_server_address_revalidates(address: Seq<char>)
    requires
        validated_server_address(address) is Ok,
    ensures
        validated_server_address(address)->Ok_0 == address,
        validated_server_address(validated_server_address(address)->Ok_0)
            == validated_server_address(address),
{
}

/// A URL that was accepted is the URL that was given, and is accepted again
/// with the same result.
pub proof fn lemma_api_url_revalidates(url: Seq<char>)
    requires
        validated_api_url(url) is Ok,
    ensures
        validated_api_url(url)->Ok_0 == url,
        validated_api_url(validated_api_url(url)->Ok_0) == validated_api_url(url),
{
}

/// A field name that was accepted is the name that was given, and is
/// accepted again with the same result.
pub proof fn lemma_field_name_revalidates(name: Seq<char>)
    requires
        validated_field_name(name) is Ok,
    ensures
        validated_field_name(name)->Ok_0 == name,
        validated_field_name(validated_field_name(name)->Ok_0) == validated_field_name(name),
{
}

/// A file name that was accepted is the name that was given, and is accepted
/// again on the same platform with the same result.
pub proof fn lemma_file_name_revalidates(name: Seq<char>, platform: Platform)
    requires
        validated_file_name(name, platform) is Ok,
    ensures
        validated_file_name(name, platform)->Ok_0 == name,
        validated_file_name(validated_file_name(name, platform)->Ok_0, platform)
            == validated_file_name(name, platform),
{
}

/// Text in which sanitisation has nothing to escape or drop.
pub open spec fn is_plain(text: Seq<char>) -> bool {
    forall|i: int| 0 <= i < text.len() ==> escaped(#[trigger] text[i]) == seq![text[i]]
}

/// Plain text is its own sanitised form.
pub proof fn lemma_sanitized_plain(text: Seq<char>)
    requires
        is_plain(text),
    ensures
        sanitized(text) == text,
    decreases text.len(),
{
    if text.len() > 0 {
        let front = text.drop_last();
        assert forall|i: int| 0 <= i < front.len() implies escaped(#[trigger] front[i]) == seq![
            front[i],
        ] by {
            assert(front[i] == text[i]);
        }
        lemma_sanitized_plain(front);
        assert(escaped(text.last()) == seq![text.last()]);
        assert(front + seq![text.last()] =~= text);
    }
}

/// Sanitising text without quotes and backslashes only drops characters:
/// the result is plain and takes no more bytes than the text.
pub proof fn lemma_sanitized_unquoted(text: Seq<char>)
    requires
        !text.contains('\''),
        !text.contains('\\'),
    ensures
        is_plain(sanitized(text)),
        utf8_len(sanitized(text)) <= utf8_len(text),
    decreases text.len(),
{
    if text.len() > 0 {
        let front = text.drop_last();
        let c = text.last();
        assert(text.contains(c));
        assert forall|i: int| 0 <= i < front.len() implies front[i] != '\'' && front[i] != '\\' by {
            assert(front[i] == text[i]);
            assert(text.contains(text[i]));
        }
        lemma_sanitized_unquoted(front);
        lemma_utf8_len_push(front, c);
        assert(front.push(c) =~= text);
        if c == '\0' || c == '\x1a' {
            assert(sanitized(text) =~= sanitized(front));
        } else {
            assert(sanitized(text) =~= sanitized(front).push(c));
            lemma_utf8_len_push(sanitized(front), c);
            assert forall|i: int| 0 <= i < sanitized(text).len() implies escaped(
                #[trigger] sanitized(text)[i],
            ) == seq![sanitized(text)[i]] by {
                if i < sanitized(front).len() {
                    assert(sanitized(text)[i] == sanitized(front)[i]);
                }
            }
        }
    } else {
        assert(sanitized(text) =~= text);
    }
}

/// A field value without quotes and backslashes that was accepted is
/// accepted again, unless dropping its NUL and SUB characters brought script
/// syntax together; the second validation returns what the first returned,
/// which takes no more bytes than the value that was given.
pub proof fn lemma_field_value_revalidates(value: Seq<char>)
    requires
        validated_field_value(value) is Ok,
        !value.contains('\''),
        !value.contains('\\'),
        !is_script_injection(sanitized(value)),
    ensures
        validated_field_value(validated_field_value(value)->Ok_0) == validated_field_value(value),
        utf8_len(validated_field_value(value)->Ok_0) <= utf8_len(value),
{
    lemma_sanitized_unquoted(value);
    lemma_sanitized_plain(sanitized(value));
}

/// Plain text within the length limit and without script syntax is accepted
/// as a field value and returned unchanged.
pub proof fn lemma_plain_field_value_unchanged(value: Seq<char>)
    requires
        is_plain(value),
        utf8_len(value) <= MAX_FIELD_VALUE_LENGTH,
        !is_script_injection(value),
    ensures
        validated_field_value(value) == Ok::<Seq<char>, crate::validation::Rejection>(value),
{
    lemma_sanitized_plain(value);
}

/// How a validated array item relates to the item given: a string is
/// sanitised, any other item is kept.
pub open spec fn is_validated_item(given: JsonView, validated: JsonView) -> bool {
    match given {
        JsonView::String(text) => validated == JsonView::String(sanitized(text)),
        _ => validated == given,
    }
}

/// How a validated member value relates to the value given: a string is
/// sanitised, an array keeps its length and has each item validated, any
/// other value is kept.
pub open spec fn is_validated_value(given: JsonView, validated: JsonView) -> bool {
    match given {
        JsonView::String(text) => validated == JsonView::String(sanitized(text)),
        JsonView::Array(items) => {
            &&& validated is Array
            &&& validated->Array_0.len() == items.len()
            &&& forall|j: int|
                0 <= j < items.len() ==> is_validated_item(
                    #[trigger] items[j],
                    validated->Array_0[j],
                )
        },
        _ => validated == given,
    }
}

/// How validated metadata relates to the metadata given: an object keeps
/// its keys, in order, and has each value validated; any other value is
/// kept.
pub open spec fn is_validated_metadata(given: JsonView, validated: JsonView) -> bool {
    match given {
        JsonView::Object(members) => {
            &&& validated is Object
            &&& validated->Object_0.len() == members.len()
            &&& forall|i: int|
                0 <= i < members.len() ==> (#[trigger] validated->Object_0[i]).0 == members[i].0
                    && is_validated_value(members[i].1, validated->Object_0[i].1)
        },
        _ => validated == given,
    }
}

/// The items of an accepted array are the items given, each validated.
pub proof fn lemma_array_keeps_shape(items: Seq<JsonView>)
    requires
        array_verdict(items) is Ok,
    ensures
        array_verdict(items)->Ok_0.len() == items.len(),
        forall|j: int|
            0 <= j < items.len() ==> is_validated_item(
                #[trigger] items[j],
                array_verdict(items)->Ok_0[j],
            ),
    decreases items.len(),
{
    if items.len() > 0 {
        let rest = items.drop_first();
        lemma_array_keeps_shape(rest);
        let first = array_item_verdict(items.first())->Ok_0;
        let validated = array_verdict(items)->Ok_0;
        assert(validated =~= seq![first] + array_verdict(rest)->Ok_0);
        assert forall|j: int| 0 <= j < items.len() implies is_validated_item(
            #[trigger] items[j],
            validated[j],
        ) by {
            if j > 0 {
                assert(items[j] == rest[j - 1]);
                assert(validated[j] == array_verdict(rest)->Ok_0[j - 1]);
            }
        }
    }
}

/// The members of an accepted object are the members given, each with its
/// key unchanged and its value validated.
pub proof fn lemma_members_keep_shape(members: Seq<(Seq<char>, JsonView)>)
    requires
        members_verdict(members) is Ok,
    ensures
        members_verdict(members)->Ok_0.len() == members.len(),
        forall|i: int|
            0 <= i < members.len() ==> (#[trigger] members_verdict(members)->Ok_0[i]).0
                == members[i].0 && is_validated_value(
                members[i].1,
                members_verdict(members)->Ok_0[i].1,
            ),
    decreases members.len(),
{
    if members.len() > 0 {
        let rest = members.drop_first();
        lemma_members_keep_shape(rest);
        let first = member_verdict(members.first())->Ok_0;
        let validated = members_verdict(members)->Ok_0;
        assert(validated =~= seq![first] + members_verdict(rest)->Ok_0);
        match members.first().1 {
            JsonView::Array(items) => {
                lemma_array_keeps_shape(items);
            },
            _ => {},
        }
        assert(is_validated_value(members.first().1, first.1));
        assert forall|i: int| 0 <= i < members.len() implies (#[trigger] validated[i]).0
            == members[i].0 && is_validated_value(members[i].1, validated[i].1) by {
            if i > 0 {
                assert(members[i] == rest[i - 1]);
                assert(validated[i] == members_verdict(rest)->Ok_0[i - 1]);
            }
        }
    }
}

/// Metadata that was accepted comes back in the same shape: an object with
/// the same keys in the same order, every string value and every string in
/// an array sanitised, everything else as it was given.
pub proof fn lemma_metadata_keeps_shape(metadata: JsonView)
    requires
        metadata_verdict(metadata) is Ok,
    ensures
        is_validated_metadata(metadata, metadata_verdict(metadata)->Ok_0),
{
    match metadata {
        JsonView::Object(members) => {
            lemma_members_keep_shape(members);
        },
        _ => {},
    }
}

/// Metadata that was accepted has the keys that were given, in the same
/// order. So an object that held no key twice holds none twice afterwards.
pub proof fn lemma_metadata_keeps_keys(metadata: JsonView)
    requires
        metadata_verdict(metadata) is Ok,
    ensures
        metadata matches JsonView::Object(members) ==> metadata_verdict(metadata)->Ok_0 is Object
            && keys_of(metadata_verdict(metadata)->Ok_0->Object_0) == keys_of(members),
        has_distinct_keys(metadata) ==> has_distinct_keys(metadata_verdict(metadata)->Ok_0),
{
    lemma_metadata_keeps_shape(metadata);
    match metadata {
        JsonView::Object(members) => {
            let validated = metadata_verdict(metadata)->Ok_0->Object_0;
            assert(keys_of(validated) =~= keys_of(members));
        },
        _ => {},
    }
}

} // verus!
