//! Pure helper queries over name lists: does a layer appear in an
//! enumerated layer list, does a device's extension list cover a required
//! set. These are the decisions the instance and device constructors rely
//! on; the enumerations themselves are driver calls made by the embedding
//! program, which hands the decoded name lists in as plain values.

use vstd::prelude::*;

verus! {

/// `names` holds an entry whose characters are exactly `name`.
pub open spec fn contains_name(names: Seq<Seq<char>>, name: Seq<char>) -> bool {
    exists|i: int| 0 <= i < names.len() && names[i] == name
}

/// Every name of `required` appears in `available` (set containment,
/// not equality).
pub open spec fn supports_all(available: Seq<Seq<char>>, required: Seq<Seq<char>>) -> bool {
    forall|i: int| 0 <= i < required.len() ==> contains_name(available, #[trigger] required[i])
}

/// The requested layer names that the runtime actually offers, in
/// request order: the intersection of the request with the enumerated
/// names, by exact name.
pub open spec fn filter_supported_layers(
    requested: Seq<Seq<char>>,
    available: Seq<Seq<char>>,
) -> Seq<Seq<char>>
    decreases requested.len(),
{
    if requested.len() == 0 {
        Seq::empty()
    } else {
        let prefix = filter_supported_layers(requested.drop_last(), available);
        if contains_name(available, requested.last()) {
            prefix.push(requested.last())
        } else {
            prefix
        }
    }
}

/// Whether the two strings hold the same characters.
pub fn str_eq(a: &str, b: &str) -> (r: bool)
    ensures
        r == (a@ == b@),
{
    let a_len = a.unicode_len();
    let b_len = b.unicode_len();
    if a_len != b_len {
        return false;
    }
    let mut i: usize = 0;
    while i < a_len
        invariant
            i <= a_len,
            a_len == a@.len(),
            b_len == b@.len(),
            a_len == b_len,
            forall|j: int| 0 <= j < i ==> a@[j] == b@[j],
        decreases a_len - i,
    {
        if a.get_char(i) != b.get_char(i) {
            return false;
        }
        i += 1;
    }
    assert(a@ =~= b@);
    true
}

/// Whether some layer of `layer_list` bears exactly the name
/// `layer_name`.
pub fn layer_in_layer_properties(layer_list: &Vec<String>, layer_name: &str) -> (r: bool)
    ensures
        r == contains_name(layer_list.deep_view(), layer_name@),
{
    name_in_list(layer_list, layer_name)
}

/// The string holds an embedded null character, so it cannot be turned
/// into a null-terminated string for the driver.
pub fn str_contains_nul(s: &str) -> (r: bool)
    ensures
        r == s@.contains('\0'),
{
    let n = s.unicode_len();
    let mut i: usize = 0;
    while i < n
        invariant
            i <= n,
            n == s@.len(),
            forall|j: int| 0 <= j < i ==> s@[j] != '\0',
        decreases n - i,
    {
        if s.get_char(i) == '\0' {
            assert(s@.contains('\0'));
            return true;
        }
        i += 1;
    }
    assert(!s@.contains('\0'));
    false
}

/// Append a copy of every entry of `src` to `dst`, in order.
pub fn append_names(dst: &mut Vec<String>, src: &Vec<String>)
    ensures
        final(dst).deep_view() == old(dst).deep_view() + src.deep_view(),
{
    let n = src.len();
    let mut i: usize = 0;
    while i < n
        invariant
            i <= n,
            n == src@.len(),
            dst@.len() == old(dst)@.len() + i,
            forall|j: int| 0 <= j < old(dst)@.len() ==> dst@[j] == old(dst)@[j],
            forall|j: int| 0 <= j < i ==> dst@[old(dst)@.len() + j] == src@[j],
        decreases n - i,
    {
        dst.push(src[i].clone());
        i += 1;
    }
    proof {
        assert forall|j: int| 0 <= j < dst.deep_view().len() implies dst.deep_view()[j] == (old(
            dst,
        ).deep_view() + src.deep_view())[j] by {
            if j < old(dst)@.len() {
                assert(dst@[j] == old(dst)@[j]);
            } else {
                assert(dst@[j] == src@[j - old(dst)@.len()]);
            }
        }
        assert(dst.deep_view() =~= old(dst).deep_view() + src.deep_view());
    }
}

/// Keep exactly the requested layers that the runtime's enumerated layer
/// list offers, in request order.
pub fn filter_layers(requested: &Vec<String>, available: &Vec<String>) -> (r: Vec<String>)
    ensures
        r.deep_view() == filter_supported_layers(requested.deep_view(), available.deep_view()),
{
    let n = requested.len();
    let mut kept: Vec<String> = Vec::new();
    let mut i: usize = 0;
    while i < n
        invariant
            i <= n,
            n == requested@.len(),
            kept.deep_view() == filter_supported_layers(
                requested.deep_view().take(i as int),
                available.deep_view(),
            ),
        decreases n - i,
    {
        proof {
            assert(requested.deep_view().take(i as int + 1).drop_last() =~= requested.deep_view()
                .take(i as int));
            assert(requested.deep_view().take(i as int + 1).last() == requested.deep_view()[
                i as int]);
        }
        if layer_in_layer_properties(available, requested[i].as_str()) {
            assert(contains_name(available.deep_view(), requested.deep_view()[i as int]));
            kept.push(requested[i].clone());
            assert(kept.deep_view() =~= filter_supported_layers(
                requested.deep_view().take(i as int),
                available.deep_view(),
            ).push(requested.deep_view()[i as int]));
        } else {
            assert(!contains_name(available.deep_view(), requested.deep_view()[i as int]));
        }
        i += 1;
    }
    assert(requested.deep_view().take(n as int) =~= requested.deep_view());
    kept
}

/// Whether `names` holds an entry equal to `name`.
pub fn name_in_list(names: &Vec<String>, name: &str) -> (r: bool)
    ensures
        r == contains_name(names.deep_view(), name@),
{
    let n = names.len();
    let mut i: usize = 0;
    while i < n
        invariant
            i <= n,
            n == names@.len(),
            names.deep_view().len() == names@.len(),
            forall|j: int| 0 <= j < names@.len() ==> names.deep_view()[j] == names@[j]@,
            forall|j: int| 0 <= j < i ==> names.deep_view()[j] != name@,
        decreases n - i,
    {
        if str_eq(names[i].as_str(), name) {
            assert(names.deep_view()[i as int] == name@);
            return true;
        }
        i += 1;
    }
    false
}

/// Whether `extensions` covers every name of `required_ext`: the device
/// suitability test. A device is suitable exactly when each required
/// extension name appears among the device's enumerated extension names.
pub fn is_physical_device_suitable(extensions: &Vec<String>, required_ext: &Vec<String>) -> (r:
    bool)
    ensures
        r == supports_all(extensions.deep_view(), required_ext.deep_view()),
{
    let n = required_ext.len();
    let mut i: usize = 0;
    while i < n
        invariant
            i <= n,
            n == required_ext@.len(),
            required_ext.deep_view().len() == required_ext@.len(),
            forall|j: int|
                0 <= j < required_ext@.len() ==> required_ext.deep_view()[j]
                    == required_ext@[j]@,
            forall|j: int|
                0 <= j < i ==> contains_name(
                    extensions.deep_view(),
                    #[trigger] required_ext.deep_view()[j],
                ),
        decreases n - i,
    {
        if !name_in_list(extensions, required_ext[i].as_str()) {
            assert(!contains_name(extensions.deep_view(), required_ext.deep_view()[i as int]));
            return false;
        }
        i += 1;
    }
    true
}

/// Suitability is set containment, not equality: adding any further
/// extension to a device's enumerated list, related or not, never makes
/// a suitable device unsuitable, and a required name that the list does
/// not hold makes the device unsuitable.
pub proof fn lemma_suitability_extension_coverage(
    available: Seq<Seq<char>>,
    required: Seq<Seq<char>>,
    extra: Seq<char>,
)
    ensures
        supports_all(available, required) ==> supports_all(available.push(extra), required),
        (exists|i: int|
            0 <= i < required.len() && !contains_name(available, #[trigger] required[i]))
            ==> !supports_all(available, required),
{
    if supports_all(available, required) {
        assert forall|i: int| 0 <= i < required.len() implies contains_name(
            available.push(extra),
            #[trigger] required[i],
        ) by {
            let k = choose|k: int| 0 <= k < available.len() && available[k] == required[i];
            assert(available.push(extra)[k] == required[i]);
        }
    }
}

/// Removing a required extension flips suitability: when the name at
/// `k` of a device's extension list is required and appears nowhere
/// else in the list, the list with that entry removed no longer covers
/// the required set.
pub proof fn lemma_suitability_needs_required(
    available: Seq<Seq<char>>,
    required: Seq<Seq<char>>,
    k: int,
)
    requires
        0 <= k < available.len(),
        contains_name(required, available[k]),
        !contains_name(available.remove(k), available[k]),
    ensures
        !supports_all(available.remove(k), required),
{
    let i = choose|i: int| 0 <= i < required.len() && required[i] == available[k];
    assert(!contains_name(available.remove(k), required[i]));
}

} // verus!
