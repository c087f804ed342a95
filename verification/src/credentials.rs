//! Credentials in the operating system's secret store.
//!
//! The store is a key/value service outside this crate: a secret is kept
//! under the application's service name and a key. What it holds at any
//! moment is the platform's business, so nothing here promises what a lookup
//! finds; what is verified is what this crate makes of each answer.

use vstd::prelude::*;

verus! {

#[verifier::external_type_specification]
#[verifier::external_body]
pub struct ExEntry(keyring::Entry);

#[verifier::external_type_specification]
#[verifier::external_body]
pub struct ExSecretError(keyring::Error);

/// The service name under which every credential of the application is
/// kept.
pub const SERVICE: &'static str = "com.aios.chat";

/// Why the secret store did not do what was asked.
#[derive(Debug, Clone, PartialEq, Eq)]
pub struct SecretFailure {
    /// The store holds nothing under the key.
    pub missing: bool,
    /// The store's own description of the failure.
    pub text: String,
}

/// `keyring::Entry::new`: the handle for the secret kept under `service`
/// and `key`. Nothing is assumed of the outcome. (The call panics only if
/// `keyring`'s own builder lock was poisoned, which nothing in this crate
/// can bring about.)
#[verifier::external_body]
fn entry(service: &str, key: &str) -> (r: Result<keyring::Entry, keyring::Error>) {
    keyring::Entry::new(service, key)
}

/// `keyring::Entry::get_password`. Nothing is assumed of the outcome.
#[verifier::external_body]
fn password(entry: &keyring::Entry) -> (r: Result<String, keyring::Error>) {
    entry.get_password()
}

/// `keyring::Entry::set_password`. Nothing is assumed of the outcome.
#[verifier::external_body]
fn store_password(entry: &keyring::Entry, value: &str) -> (r: Result<(), keyring::Error>) {
    entry.set_password(value)
}

/// `keyring::Entry::delete_credential`. Nothing is assumed of the outcome.
#[verifier::external_body]
fn remove(entry: &keyring::Entry) -> (r: Result<(), keyring::Error>) {
    entry.delete_credential()
}

/// Takes a `keyring::Error` apart: whether it is the `NoEntry` variant, and
/// its `Display` text. Nothing is assumed of the outcome.
#[verifier::external_body]
fn failure(e: keyring::Error) -> (r: SecretFailure) {
    SecretFailure { missing: matches!(e, keyring::Error::NoEntry), text: e.to_string() }
}

/// The keys under which the application keeps credentials.
pub open spec fn credential_keys() -> Seq<Seq<char>> {
    seq![
        "anthropic_api_key"@,
        "perplexity_api_key"@,
        "email_address"@,
        "email_username"@,
        "email_password"@,
        "email_imap_host"@,
        "email_imap_port"@,
        "email_imap_security"@,
        "email_smtp_host"@,
        "email_smtp_port"@,
        "email_smtp_security"@,
        "email_ssl_verify"@,
    ]
}

/// The keys of a list of key texts, as contracts see them.
pub open spec fn key_views(keys: Seq<&'static str>) -> Seq<Seq<char>> {
    Seq::new(keys.len(), |i: int| keys[i]@)
}

/// A list of key/value pairs as contracts see it.
pub open spec fn pairs(entries: Seq<(String, String)>) -> Seq<(Seq<char>, Seq<char>)> {
    Seq::new(entries.len(), |i: int| (entries[i].0@, entries[i].1@))
}

/// What a lookup contributes to a listing: its value where it found one,
/// nothing where the key is unset or the lookup failed.
pub open spec fn present(lookup: Result<Option<String>, String>) -> Option<Seq<char>> {
    match lookup {
        Ok(Some(value)) => Some(value@),
        _ => None,
    }
}

/// The listing made from `keys` and what was found under each: the keys
/// that have a value, each with its value, in the order of `keys`.
pub open spec fn gathered(keys: Seq<Seq<char>>, values: Seq<Option<Seq<char>>>) -> Seq<
    (Seq<char>, Seq<char>),
>
    recommends
        keys.len() == values.len(),
    decreases keys.len(),
{
    if keys.len() == 0 || values.len() == 0 {
        Seq::empty()
    } else {
        let earlier = gathered(keys.drop_last(), values.drop_last());
        match values.last() {
            Some(value) => earlier.push((keys.last(), value)),
            None => earlier,
        }
    }
}

/// Every entry of a listing is one of the keys, with the value found under
/// that key.
pub proof fn listed_was_found(keys: Seq<Seq<char>>, values: Seq<Option<Seq<char>>>, i: int)
    requires
        keys.len() == values.len(),
        0 <= i < gathered(keys, values).len(),
    ensures
        exists|j: int|
            0 <= j < keys.len() && #[trigger] keys[j] == gathered(keys, values)[i].0 && values[j]
                == Some(gathered(keys, values)[i].1),
    decreases keys.len(),
{
    let earlier = gathered(keys.drop_last(), values.drop_last());
    if i < earlier.len() {
        listed_was_found(keys.drop_last(), values.drop_last(), i);
        let j = choose|j: int|
            0 <= j < keys.drop_last().len() && #[trigger] keys.drop_last()[j] == earlier[i].0
                && values.drop_last()[j] == Some(earlier[i].1);
        assert(keys[j] == gathered(keys, values)[i].0);
        assert(values[j] == Some(gathered(keys, values)[i].1));
    } else {
        let j = keys.len() - 1;
        assert(keys[j] == gathered(keys, values)[i].0);
        assert(values[j] == Some(gathered(keys, values)[i].1));
    }
}

/// Every key under which a value was found is in the listing, with that
/// value.
pub proof fn found_is_listed(keys: Seq<Seq<char>>, values: Seq<Option<Seq<char>>>, j: int)
    requires
        keys.len() == values.len(),
        0 <= j < keys.len(),
        values[j] is Some,
    ensures
        gathered(keys, values).contains((keys[j], values[j].unwrap())),
    decreases keys.len(),
{
    let earlier = gathered(keys.drop_last(), values.drop_last());
    let all = gathered(keys, values);
    if j == keys.len() - 1 {
        assert(all[all.len() - 1] == (keys[j], values[j].unwrap()));
    } else {
        found_is_listed(keys.drop_last(), values.drop_last(), j);
        let i = choose|i: int|
            0 <= i < earlier.len() && earlier[i] == (keys[j], values[j].unwrap());
        assert(all[i] == earlier[i]);
    }
}

/// A listing never holds more entries than there are keys.
pub proof fn listing_is_no_longer_than_keys(keys: Seq<Seq<char>>, values: Seq<Option<Seq<char>>>)
    ensures
        gathered(keys, values).len() <= keys.len(),
    decreases keys.len(),
{
    if keys.len() > 0 && values.len() > 0 {
        listing_is_no_longer_than_keys(keys.drop_last(), values.drop_last());
    }
}

/// The keys under which the application keeps credentials, in their fixed
/// order.
pub fn known_keys() -> (r: Vec<&'static str>)
    ensures
        key_views(r@) =~= credential_keys(),
{
    vec![
        "anthropic_api_key",
        "perplexity_api_key",
        "email_address",
        "email_username",
        "email_password",
        "email_imap_host",
        "email_imap_port",
        "email_imap_security",
        "email_smtp_host",
        "email_smtp_port",
        "email_smtp_security",
        "email_ssl_verify",
    ]
}

/// What a lookup's answer means: a secret that is there is handed back; a
/// key with no entry is an absence, not an error; any other failure is
/// passed on as its text.
pub fn found(answer: Result<String, SecretFailure>) -> (r: Result<Option<String>, String>)
    ensures
        match answer {
            Ok(secret) => r == Ok::<Option<String>, String>(Some(secret)),
            Err(f) => if f.missing {
                r == Ok::<Option<String>, String>(None)
            } else {
                r == Err::<Option<String>, String>(f.text)
            },
        },
{
    match answer {
        Ok(secret) => Ok(Some(secret)),
        Err(f) => if f.missing {
            Ok(None)
        } else {
            Err(f.text)
        },
    }
}

/// What a deletion's answer means: deleting a key with no entry is a
/// success like any other; any other failure is passed on as its text.
pub fn removed(answer: Result<(), SecretFailure>) -> (r: Result<(), String>)
    ensures
        match answer {
            Ok(()) => r == Ok::<(), String>(()),
            Err(f) => if f.missing {
                r == Ok::<(), String>(())
            } else {
                r == Err::<(), String>(f.text)
            },
        },
{
    match answer {
        Ok(()) => Ok(()),
        Err(f) => if f.missing {
            Ok(())
        } else {
            Err(f.text)
        },
    }
}

/// Looks up the secret kept under `key`. A key with no entry is `Ok(None)`.
pub fn get_credential(key: &str) -> (r: Result<Option<String>, String>) {
    let handle = match passed(told(entry(SERVICE, key))) {
        Ok(handle) => handle,
        Err(text) => {
            return Err(text);
        },
    };
    found(told(password(&handle)))
}

/// Keeps `value` under `key`, replacing what was there. Whether the store
/// takes the value is the platform's to say; its answer is handed on by
/// [`passed`]: success as success, a failure as the text of what the store
/// said.
pub fn set_credential(key: &str, value: &str) -> (r: Result<(), String>) {
    let handle = match passed(told(entry(SERVICE, key))) {
        Ok(handle) => handle,
        Err(text) => {
            return Err(text);
        },
    };
    passed(told(store_password(&handle, value)))
}

/// Deletes the secret kept under `key`. A key with no entry is a success:
/// the store's answer is read by [`removed`], which counts "nothing there"
/// as deleted. A handle that cannot be made for the key is a failure, handed
/// on by [`passed`].
pub fn delete_credential(key: &str) -> (r: Result<(), String>) {
    let handle = match passed(told(entry(SERVICE, key))) {
        Ok(handle) => handle,
        Err(text) => {
            return Err(text);
        },
    };
    removed(told(remove(&handle)))
}

/// What each lookup of a run contributes to a listing, in the order of the
/// lookups.
pub open spec fn present_all(lookups: Seq<Result<Option<String>, String>>) -> Seq<
    Option<Seq<char>>,
> {
    Seq::new(lookups.len(), |i: int| present(lookups[i]))
}

/// No two entries of a listing stand under the same key.
pub open spec fn no_key_twice(entries: Seq<(Seq<char>, Seq<char>)>) -> bool {
    forall|i: int, j: int|
        #![trigger entries[i], entries[j]]
        0 <= i < j < entries.len() ==> entries[i].0 != entries[j].0
}

/// No two keys of a list are the same.
pub open spec fn all_different(keys: Seq<Seq<char>>) -> bool {
    forall|i: int, j: int| #![trigger keys[i], keys[j]] 0 <= i < j < keys.len() ==> keys[i] != keys[j]
}

/// The known keys are twelve different keys.
pub proof fn known_keys_differ()
    ensures
        credential_keys().len() == 12,
        all_different(credential_keys()),
{
    reveal_strlit("anthropic_api_key");
    reveal_strlit("perplexity_api_key");
    reveal_strlit("email_address");
    reveal_strlit("email_username");
    reveal_strlit("email_password");
    reveal_strlit("email_imap_host");
    reveal_strlit("email_imap_port");
    reveal_strlit("email_imap_security");
    reveal_strlit("email_smtp_host");
    reveal_strlit("email_smtp_port");
    reveal_strlit("email_smtp_security");
    reveal_strlit("email_ssl_verify");
    let keys = credential_keys();
    assert(keys[0].len() == 17 && keys[1].len() == 18 && keys[2].len() == 13);
    assert(keys[3].len() == 14 && keys[4].len() == 14 && keys[11].len() == 16);
    assert(keys[5].len() == 15 && keys[6].len() == 15 && keys[8].len() == 15 && keys[9].len()
        == 15);
    assert(keys[7].len() == 19 && keys[10].len() == 19);
    // Keys of one length differ in the letter after "email_", or in the
    // first letter of their last word.
    assert(keys[3][6] == 'u' && keys[4][6] == 'p');
    assert(keys[5][6] == 'i' && keys[6][6] == 'i' && keys[8][6] == 's' && keys[9][6] == 's');
    assert(keys[5][11] == 'h' && keys[6][11] == 'p' && keys[8][11] == 'h' && keys[9][11] == 'p');
    assert(keys[7][6] == 'i' && keys[10][6] == 's');
}

/// A listing made from different keys holds no key twice.
pub proof fn listing_has_no_key_twice(keys: Seq<Seq<char>>, values: Seq<Option<Seq<char>>>)
    requires
        keys.len() == values.len(),
        all_different(keys),
    ensures
        no_key_twice(gathered(keys, values)),
    decreases keys.len(),
{
    if keys.len() > 0 {
        let earlier = gathered(keys.drop_last(), values.drop_last());
        let all = gathered(keys, values);
        assert(all_different(keys.drop_last())) by {
            assert forall|i: int, j: int|
                #![trigger keys.drop_last()[i], keys.drop_last()[j]]
                0 <= i < j < keys.drop_last().len() implies keys.drop_last()[i]
                != keys.drop_last()[j] by {
                assert(keys[i] != keys[j]);
            }
        }
        listing_has_no_key_twice(keys.drop_last(), values.drop_last());
        assert forall|i: int, j: int|
            #![trigger all[i], all[j]]
            0 <= i < j < all.len() implies all[i].0 != all[j].0 by {
            if j < earlier.len() {
                assert(earlier[i].0 != earlier[j].0);
            } else {
                listed_was_found(keys.drop_last(), values.drop_last(), i);
                let at = choose|at: int|
                    0 <= at < keys.drop_last().len() && #[trigger] keys.drop_last()[at]
                        == earlier[i].0 && values.drop_last()[at] == Some(earlier[i].1);
                assert(keys[at] != keys[keys.len() - 1]);
            }
        }
    }
}

/// The listing made from a run of lookups, one for each key: every key
/// whose lookup found a secret, with that secret, in the order of the keys.
/// A lookup that found nothing contributes nothing, and neither does one
/// that failed.
pub fn listing(keys: &Vec<&'static str>, lookups: &Vec<Result<Option<String>, String>>) -> (r: Vec<
    (String, String),
>)
    requires
        keys@.len() == lookups@.len(),
    ensures
        pairs(r@) =~= gathered(key_views(keys@), present_all(lookups@)),
{
    let mut entries: Vec<(String, String)> = Vec::new();
    let mut k: usize = 0;
    while k < keys.len()
        invariant
            0 <= k <= keys@.len(),
            keys@.len() == lookups@.len(),
            pairs(entries@) =~= gathered(
                key_views(keys@).take(k as int),
                present_all(lookups@).take(k as int),
            ),
        decreases keys@.len() - k,
    {
        let key: &'static str = keys[k];
        proof {
            let before = key_views(keys@).take(k as int);
            let after = key_views(keys@).take(k + 1);
            assert(after.drop_last() =~= before);
            assert(present_all(lookups@).take(k + 1).drop_last() =~= present_all(lookups@).take(
                k as int,
            ));
            assert(after.last() == key@);
            assert(present_all(lookups@).take(k + 1).last() == present(lookups@[k as int]));
        }
        match &lookups[k] {
            Ok(Some(secret)) => {
                entries.push((key.to_owned(), secret.clone()));
            },
            _ => {},
        }
        k += 1;
    }
    proof {
        assert(key_views(keys@).take(k as int) =~= key_views(keys@));
        assert(present_all(lookups@).take(k as int) =~= present_all(lookups@));
    }
    entries
}

/// Looks up every known key and lists those that have a secret, each with
/// its secret, in the order of the known keys: one [`get_credential`] for
/// each key, and then [`listing`] of what the lookups found. A lookup that
/// fails counts as a key without a secret, so the listing itself never
/// fails. No key is listed twice.
pub fn get_all_credentials() -> (r: Result<Vec<(String, String)>, String>)
    ensures
        r matches Ok(entries) && no_key_twice(pairs(entries@)) && exists|
            values: Seq<Option<Seq<char>>>,
        |
            values.len() == credential_keys().len() && pairs(entries@) == #[trigger] gathered(
                credential_keys(),
                values,
            ),
{
    let keys = known_keys();
    let mut lookups: Vec<Result<Option<String>, String>> = Vec::new();
    let mut k: usize = 0;
    while k < keys.len()
        invariant
            0 <= k <= keys@.len(),
            lookups@.len() == k,
        decreases keys@.len() - k,
    {
        lookups.push(get_credential(keys[k]));
        k += 1;
    }
    let entries = listing(&keys, &lookups);
    proof {
        known_keys_differ();
        listing_has_no_key_twice(credential_keys(), present_all(lookups@));
    }
    Ok(entries)
}

/// The store's answer with its failure taken apart: a value is handed on
/// as it came.
pub fn told<T>(answer: Result<T, keyring::Error>) -> (r: Result<T, SecretFailure>)
    ensures
        match answer {
            Ok(value) => r == Ok::<T, SecretFailure>(value),
            Err(_) => r is Err,
        },
{
    match answer {
        Ok(value) => Ok(value),
        Err(e) => Err(failure(e)),
    }
}

/// An answer handed on without a second look: a value as it came, and a
/// failure, whatever its kind, as its text.
pub fn passed<T>(answer: Result<T, SecretFailure>) -> (r: Result<T, String>)
    ensures
        match answer {
            Ok(value) => r == Ok::<T, String>(value),
            Err(f) => r == Err::<T, String>(f.text),
        },
{
    match answer {
        Ok(value) => Ok(value),
        Err(f) => Err(f.text),
    }
}

} // verus!
