//! The factory's handlers: who may change the arena code, how an arena is
//! created and registered, and who may ask about viewing keys.
use vstd::prelude::*;
use vstd::utf8::encode_utf8;
use crate::factory::msg::{ArenaContractInitMsg, HandleAnswer, InitMsg, QueryAnswer, ResponseStatus};

verus! {

/// What the factory stores.
#[derive(Clone, Debug, PartialEq, Eq)]
pub struct FactoryConfig {
    /// The address that created the factory.
    pub admin: String,
    /// The key with which the factory's arenas authenticate themselves.
    pub factory_key: String,
    /// The seed from which viewing keys are drawn.
    pub prng_seed: Vec<u8>,
    pub arena_contract_code_id: u64,
    pub arena_contract_code_hash: String,
    pub snip20_contract_code_address: String,
    pub snip20_contract_code_hash: String,
    /// The arenas created so far, newest first.
    pub arena_contracts: Vec<String>,
}

/// Why the factory refuses a request.
#[derive(Clone, Copy, Debug, PartialEq, Eq)]
pub enum FactoryError {
    PermissionDenied,
}

/// The base64 digit of a six-bit value: `A`-`Z`, `a`-`z`, `0`-`9`, `+`, `/`.
pub open spec fn base64_digit(v: int) -> char {
    if v < 26 {
        (65 + v) as char
    } else if v < 52 {
        (97 + v - 26) as char
    } else if v < 62 {
        (48 + v - 52) as char
    } else if v == 62 {
        '+'
    } else {
        '/'
    }
}

/// The standard base64 text, with padding, of a byte string: each group
/// of three bytes becomes four digits of six bits each; a last group of one
/// or two bytes is filled with zero bits and padded with `=` to four
/// characters.
pub open spec fn base64_standard(data: Seq<u8>) -> Seq<char>
    decreases data.len(),
{
    if data.len() == 0 {
        Seq::empty()
    } else if data.len() == 1 {
        let b0 = data[0] as int;
        seq![base64_digit(b0 / 4), base64_digit((b0 % 4) * 16), '=', '=']
    } else if data.len() == 2 {
        let b0 = data[0] as int;
        let b1 = data[1] as int;
        seq![
            base64_digit(b0 / 4),
            base64_digit((b0 % 4) * 16 + b1 / 16),
            base64_digit((b1 % 16) * 4),
            '=',
        ]
    } else {
        let b0 = data[0] as int;
        let b1 = data[1] as int;
        let b2 = data[2] as int;
        seq![
            base64_digit(b0 / 4),
            base64_digit((b0 % 4) * 16 + b1 / 16),
            base64_digit((b1 % 16) * 4 + b2 / 64),
            base64_digit(b2 % 64),
        ] + base64_standard(data.subrange(3, data.len() as int))
    }
}

/// Calls `base64::encode`, which encodes with the standard alphabet and
/// padding (RFC 4648); claims that the text is `base64_standard` of the
/// bytes.
#[verifier::external_body]
fn base64_encode(data: &[u8]) -> (text: String)
    ensures
        text@ == base64_standard(data@),
{
    base64::encode(data)
}

/// The bytes hashed into the factory's seed: the UTF-8 bytes of the
/// base64 text of the creation entropy's UTF-8 bytes.
pub fn prng_seed_source(entropy: &String) -> (bytes: Vec<u8>)
    ensures
        bytes@ == encode_utf8(base64_standard(encode_utf8(entropy@))),
{
    let text = base64_encode(entropy.as_str().as_bytes());
    text.as_str().as_bytes_vec()
}

/// Creates the factory's store: `sender` becomes the admin, the arena list
/// starts empty, and the code to instantiate is the one given.
pub fn init(msg: InitMsg, sender: String, prng_seed: Vec<u8>, factory_key: String) -> (c:
    FactoryConfig)
    ensures
        c == (FactoryConfig {
            admin: sender,
            factory_key: factory_key,
            prng_seed: prng_seed,
            arena_contract_code_id: msg.arena_contracts_code_id,
            arena_contract_code_hash: msg.arena_contracts_code_hash,
            snip20_contract_code_address: msg.snip20_contract_code_address,
            snip20_contract_code_hash: msg.snip20_contract_code_hash,
            arena_contracts: c.arena_contracts,
        }),
        c.arena_contracts@.len() == 0,
{
    FactoryConfig {
        admin: sender,
        factory_key,
        prng_seed,
        arena_contract_code_id: msg.arena_contracts_code_id,
        arena_contract_code_hash: msg.arena_contracts_code_hash,
        snip20_contract_code_address: msg.snip20_contract_code_address,
        snip20_contract_code_hash: msg.snip20_contract_code_hash,
        arena_contracts: Vec::new(),
    }
}

/// Only the admin may change which code new arenas run; nothing else
/// changes.
pub fn try_change_arena_contract_code_id(
    config: FactoryConfig,
    sender: &String,
    code_id: u64,
    code_hash: String,
) -> (r: Result<FactoryConfig, FactoryError>)
    ensures
        sender@ == config.admin@ ==> r == Ok::<FactoryConfig, FactoryError>(
            FactoryConfig {
                arena_contract_code_id: code_id,
                arena_contract_code_hash: code_hash,
                ..config
            },
        ),
        sender@ != config.admin@ ==> r == Err::<FactoryConfig, FactoryError>(
            FactoryError::PermissionDenied,
        ),
{
    if *sender != config.admin {
        return Err(FactoryError::PermissionDenied);
    }
    let mut config = config;
    config.arena_contract_code_id = code_id;
    config.arena_contract_code_hash = code_hash;
    Ok(config)
}

/// The label under which an arena named `name` is instantiated.
pub open spec fn arena_label(name: Seq<char>) -> Seq<char> {
    "Arena - "@ + " "@ + name
}

/// An arena's label is the word "Arena", a space, a hyphen and two spaces,
/// followed by the arena's name.
pub proof fn lemma_arena_label(name: Seq<char>)
    ensures
        arena_label(name).len() == name.len() + 9,
        arena_label(name).subrange(0, 9) == seq!['A', 'r', 'e', 'n', 'a', ' ', '-', ' ', ' '],
        arena_label(name).subrange(9, arena_label(name).len() as int) == name,
{
    reveal_strlit("Arena - ");
    reveal_strlit(" ");
    assert(arena_label(name).subrange(0, 9) =~= seq!['A', 'r', 'e', 'n', 'a', ' ', '-', ' ', ' ']);
    assert(arena_label(name).subrange(9, arena_label(name).len() as int) =~= name);
}

/// What creating an arena sends: the arena's init message, its label, the
/// code to instantiate, and the answer to the admin.
pub struct ArenaInstantiation {
    pub init_msg: ArenaContractInitMsg,
    pub label: String,
    pub code_id: u64,
    pub code_hash: String,
    pub answer: HandleAnswer,
}

/// Prepares the creation of an arena named `name` by the factory at
/// `factory_address` whose code has hash `factory_hash`. Creating arenas is
/// the admin's command: anyone else is refused. The arena learns where the
/// factory is, the factory's key and the token contract, and the answer
/// reports success.
pub fn try_arena_instanciate(
    config: &FactoryConfig,
    sender: &String,
    name: String,
    entropy: u64,
    factory_hash: String,
    factory_address: String,
) -> (r: Result<ArenaInstantiation, FactoryError>)
    ensures
        sender@ != config.admin@ ==> r matches Err(FactoryError::PermissionDenied),
        sender@ == config.admin@ ==> (r matches Ok(i) && i.init_msg == (ArenaContractInitMsg {
            name: name,
            entropy: entropy,
            factory_hash: factory_hash,
            factory_address: factory_address,
            factory_key: config.factory_key,
            snip20_contract_code_address: config.snip20_contract_code_address,
            snip20_contract_code_hash: config.snip20_contract_code_hash,
        }) && i.label@ == arena_label(name@) && i.code_id == config.arena_contract_code_id
            && i.code_hash == config.arena_contract_code_hash && i.answer == (HandleAnswer::Status {
            status: ResponseStatus::Success,
            message: None,
        })),
{
    if *sender != config.admin {
        return Err(FactoryError::PermissionDenied);
    }
    let label = String::from_str("Arena - ").concat(" ").concat(name.as_str());
    let init_msg = ArenaContractInitMsg {
        name,
        entropy,
        factory_hash,
        factory_address,
        factory_key: config.factory_key.clone(),
        snip20_contract_code_address: config.snip20_contract_code_address.clone(),
        snip20_contract_code_hash: config.snip20_contract_code_hash.clone(),
    };
    Ok(
        ArenaInstantiation {
            init_msg,
            label,
            code_id: config.arena_contract_code_id,
            code_hash: config.arena_contract_code_hash.clone(),
            answer: HandleAnswer::Status { status: ResponseStatus::Success, message: None },
        },
    )
}

/// The list of arenas after the arenas at `addresses` registered, in that
/// order, starting from `list`: each registration puts its arena first.
pub open spec fn registered_after(list: Seq<Seq<char>>, addresses: Seq<Seq<char>>) -> Seq<Seq<char>>
    decreases addresses.len(),
{
    if addresses.len() == 0 {
        list
    } else {
        seq![addresses.last()] + registered_after(list, addresses.drop_last())
    }
}

/// Every registered arena is listed, newest first: after the arenas at
/// `addresses` registered in that order, the list is those addresses in
/// reverse order followed by the arenas listed before.
pub proof fn lemma_arenas_newest_first(list: Seq<Seq<char>>, addresses: Seq<Seq<char>>)
    ensures
        registered_after(list, addresses) == addresses.reverse() + list,
    decreases addresses.len(),
{
    if addresses.len() > 0 {
        let prefix = addresses.drop_last();
        lemma_arenas_newest_first(list, prefix);
        assert(seq![addresses.last()] + (prefix.reverse() + list) =~= addresses.reverse() + list);
    }
}

/// Every arena registered since the factory was created is listed, newest
/// first: if `lists[0]` is the empty list that `init` stores and each
/// `lists[i + 1]` is what an accepted callback for `addresses[i]` leaves
/// after `lists[i]`, then the last list is `addresses` in reverse order.
pub proof fn lemma_registrations_since_init(
    lists: Seq<Seq<Seq<char>>>,
    addresses: Seq<Seq<char>>,
)
    requires
        lists.len() == addresses.len() + 1,
        lists[0].len() == 0,
        forall|i: int|
            0 <= i < addresses.len() ==> lists[i + 1] == registered_after(
                lists[i],
                seq![#[trigger] addresses[i]],
            ),
    ensures
        lists[addresses.len() as int] == addresses.reverse(),
{
    assert forall|k: int| 0 <= k <= addresses.len() implies #[trigger] lists[k]
        == registered_after(lists[0], addresses.take(k)) by {
        lemma_registration_prefix(lists, addresses, k);
    }
    assert(addresses.take(addresses.len() as int) =~= addresses);
    lemma_arenas_newest_first(lists[0], addresses);
    assert(addresses.reverse() + lists[0] =~= addresses.reverse());
}

proof fn lemma_registration_prefix(lists: Seq<Seq<Seq<char>>>, addresses: Seq<Seq<char>>, k: int)
    requires
        lists.len() == addresses.len() + 1,
        forall|i: int|
            0 <= i < addresses.len() ==> lists[i + 1] == registered_after(
                lists[i],
                seq![#[trigger] addresses[i]],
            ),
        0 <= k <= addresses.len(),
    ensures
        lists[k] == registered_after(lists[0], addresses.take(k)),
    decreases k,
{
    if k == 0 {
        assert(addresses.take(0) =~= Seq::<Seq<char>>::empty());
    } else {
        lemma_registration_prefix(lists, addresses, k - 1);
        let one = seq![addresses[k - 1]];
        assert(one.drop_last() =~= Seq::<Seq<char>>::empty());
        assert(registered_after(lists[k - 1], one.drop_last()) == lists[k - 1]);
        assert(lists[k] == registered_after(lists[k - 1], one));
        let t = addresses.take(k);
        assert(t.drop_last() =~= addresses.take(k - 1));
        assert(t.last() == addresses[k - 1]);
    }
}

/// A new arena registers itself with the factory's key; it is put first in
/// the list. A wrong key is refused and changes nothing.
pub fn try_arena_instanciated_callback(
    config: FactoryConfig,
    auth_key: &String,
    contract_address: String,
) -> (r: Result<FactoryConfig, FactoryError>)
    ensures
        auth_key@ == config.factory_key@ ==> (r matches Ok(c) && c == (FactoryConfig {
            arena_contracts: c.arena_contracts,
            ..config
        }) && c.arena_contracts@ == seq![contract_address].add(config.arena_contracts@)
            && c.arena_contracts.deep_view() == registered_after(
            config.arena_contracts.deep_view(),
            seq![contract_address@],
        )),
        auth_key@ != config.factory_key@ ==> r == Err::<FactoryConfig, FactoryError>(
            FactoryError::PermissionDenied,
        ),
{
    if config.factory_key != *auth_key {
        return Err(FactoryError::PermissionDenied);
    }
    let ghost old_list = config.arena_contracts@;
    let ghost old_deep = config.arena_contracts.deep_view();
    let mut config = config;
    config.arena_contracts.insert(0, contract_address);
    assert(config.arena_contracts@ =~= seq![contract_address].add(old_list));
    proof {
        let one = seq![contract_address@];
        assert(one.drop_last() =~= Seq::<Seq<char>>::empty());
        assert(registered_after(old_deep, one.drop_last()) == old_deep);
        assert(one.last() == contract_address@);
        assert(registered_after(old_deep, one) == seq![contract_address@] + old_deep);
        assert(config.arena_contracts.deep_view() =~= seq![contract_address@] + old_deep);
    }
    Ok(config)
}

/// Only a caller that knows the factory's key may learn whether a viewing
/// key is valid: anyone else is refused.
pub fn try_validate_key(config: &FactoryConfig, factory_key: &String) -> (r: Result<(), FactoryError>)
    ensures
        factory_key@ == config.factory_key@ ==> r is Ok,
        factory_key@ != config.factory_key@ ==> r matches Err(FactoryError::PermissionDenied),
{
    if *factory_key != config.factory_key {
        return Err(FactoryError::PermissionDenied);
    }
    Ok(())
}

/// The code that new arenas run.
pub fn arena_contract_code_id(config: &FactoryConfig) -> (a: QueryAnswer)
    ensures
        a matches QueryAnswer::ArenaContractCodeID { code_id, code_hash } && code_id
            == config.arena_contract_code_id && code_hash == config.arena_contract_code_hash,
{
    QueryAnswer::ArenaContractCodeID {
        code_id: config.arena_contract_code_id,
        code_hash: config.arena_contract_code_hash.clone(),
    }
}

/// The arenas created so far, newest first.
pub fn arenas(config: &FactoryConfig) -> (a: QueryAnswer)
    ensures
        a matches QueryAnswer::Arenas { arenas } && arenas.deep_view()
            == config.arena_contracts.deep_view(),
{
    let mut list: Vec<String> = Vec::new();
    let mut i: usize = 0;
    while i < config.arena_contracts.len()
        invariant
            i <= config.arena_contracts@.len(),
            list@ == config.arena_contracts@.subrange(0, i as int),
        decreases config.arena_contracts@.len() - i,
    {
        list.push(config.arena_contracts[i].clone());
        i = i + 1;
        assert(list@ =~= config.arena_contracts@.subrange(0, i as int));
    }
    assert(config.arena_contracts@.subrange(0, i as int) =~= config.arena_contracts@);
    assert(list.deep_view() =~= config.arena_contracts.deep_view());
    QueryAnswer::Arenas { arenas: list }
}

} // verus!
