use vstd::prelude::*;
use vstd::string::*;
use vstd::relations::injective_on;
use dashmap::DashMap;
use std::collections::hash_map::RandomState;

verus! {

#[verifier::external_type_specification]
#[verifier::external_body]
#[verifier::reject_recursive_types(K)]
#[verifier::reject_recursive_types(V)]
#[verifier::reject_recursive_types(S)]
pub struct ExDashMap<K, V, S>(DashMap<K, V, S>);

/// A registered chat user.
#[derive(Debug, Clone, PartialEq, Eq)]
pub struct User {
    pub username: String,
}

/// The users of a chat room, found by their id.
pub type UserStore = DashMap<u128, User, RandomState>;

/// The ids of the users of a chat room, found by their name.
pub type UsernameStore = DashMap<String, u128, RandomState>;

/// What a user store holds: each id with the name of its user.
pub uninterp spec fn user_table(m: DashMap<u128, User, RandomState>) -> Map<u128, Seq<char>>;

/// What a username store holds: each name with the id of its user.
pub uninterp spec fn name_table(m: DashMap<String, u128, RandomState>) -> Map<Seq<char>, u128>;

/// `DashMap::new` for a user store: the map starts empty.
#[verifier::external_body]
fn new_user_table() -> (table: UserStore)
    ensures
        user_table(table) =~= Map::empty(),
{
    DashMap::new()
}

/// `DashMap::new` for a username store: the map starts empty.
#[verifier::external_body]
fn new_name_table() -> (table: UsernameStore)
    ensures
        name_table(table) =~= Map::empty(),
{
    DashMap::new()
}

/// `DashMap::insert` on a user store: the id now names this user, and what
/// the id named before, if anything, comes back.
#[verifier::external_body]
pub(crate) fn user_table_insert(table: &mut UserStore, id: u128, user: User) -> (previous: Option<User>)
    ensures
        user_table(*final(table)) == user_table(*old(table)).insert(id, user.username@),
        previous is Some <==> user_table(*old(table)).dom().contains(id),
        previous matches Some(u) ==> u.username@ == user_table(*old(table))[id],
{
    table.insert(id, user)
}

/// `DashMap::remove` on a user store: the id leaves the store, and its entry
/// comes back when there was one.
#[verifier::external_body]
fn user_table_remove(table: &mut UserStore, id: u128) -> (removed: Option<(u128, User)>)
    ensures
        user_table(*final(table)) == user_table(*old(table)).remove(id),
        removed is Some <==> user_table(*old(table)).dom().contains(id),
        removed matches Some(entry) ==> entry.0 == id && entry.1.username@ == user_table(
            *old(table),
        )[id],
{
    table.remove(&id)
}

/// `DashMap::get` on a user store, with the user it finds cloned out of the
/// returned guard.
#[verifier::external_body]
fn user_table_get(table: &UserStore, id: u128) -> (found: Option<User>)
    ensures
        found is Some <==> user_table(*table).dom().contains(id),
        found matches Some(u) ==> u.username@ == user_table(*table)[id],
{
    table.get(&id).map(|entry| entry.value().clone())
}

/// `DashMap::contains_key` on a username store.
#[verifier::external_body]
pub(crate) fn name_table_contains(table: &UsernameStore, name: &str) -> (present: bool)
    ensures
        present == name_table(*table).dom().contains(name@),
{
    table.contains_key(name)
}

/// `DashMap::insert` on a username store: the name now leads to this id, and
/// the id it led to before, if any, comes back.
#[verifier::external_body]
pub(crate) fn name_table_insert(table: &mut UsernameStore, name: String, id: u128) -> (previous: Option<u128>)
    ensures
        name_table(*final(table)) == name_table(*old(table)).insert(name@, id),
        previous is Some <==> name_table(*old(table)).dom().contains(name@),
        previous matches Some(v) ==> v == name_table(*old(table))[name@],
{
    table.insert(name, id)
}

/// `DashMap::remove` on a username store: the name leaves the store, and its
/// entry comes back when there was one.
#[verifier::external_body]
fn name_table_remove(table: &mut UsernameStore, name: &str) -> (removed: Option<(String, u128)>)
    ensures
        name_table(*final(table)) == name_table(*old(table)).remove(name@),
        removed is Some <==> name_table(*old(table)).dom().contains(name@),
        removed matches Some(entry) ==> entry.0@ == name@ && entry.1 == name_table(
            *old(table),
        )[name@],
{
    table.remove(name)
}

/// `id` is the value of a version-4 UUID of the RFC 4122 variant: its
/// version field is 4 and its two variant bits are `0b10`.
pub open spec fn is_v4_id(id: u128) -> bool {
    &&& (id >> 76u128) & 0xfu128 == 4
    &&& (id >> 62u128) & 0x3u128 == 2
}

/// `Uuid::new_v4`, taken as its 128-bit value. The value is random: its
/// source fixes only the version field to 4 and the two variant bits to
/// `0b10`; nothing else is known of it, and it may equal an id in use.
#[verifier::external_body]
pub(crate) fn random_user_id() -> (id: u128)
    ensures
        is_v4_id(id),
{
    uuid::Uuid::new_v4().as_u128()
}

/// The refusal given for a name that a user already has.
pub open spec fn taken_message(name: Seq<char>) -> Seq<char> {
    "Username '"@ + name + "' is already taken"@
}

/// The refusal of a taken name names it: it is the name, quoted, between a
/// fixed opening and closing.
pub proof fn law_taken_message_names_it(name: Seq<char>)
    ensures
        taken_message(name) == "Username '"@ + name + "' is already taken"@,
{
}

/// An id accepted as a version-4 UUID value has version field 4 and
/// variant bits `0b10`, and no value with another version field is
/// accepted.
pub proof fn law_v4_id_bits(id: u128)
    ensures
        is_v4_id(id) <==> ((id >> 76u128) & 0xfu128 == 4 && (id >> 62u128) & 0x3u128 == 2),
{
}

/// Each user's name leads back to that user's id, and each registered name
/// belongs to the user it leads to.
pub open spec fn registry_consistent(users: Map<u128, Seq<char>>, names: Map<Seq<char>, u128>) -> bool {
    &&& forall|id: u128| #[trigger]
        users.dom().contains(id) ==> names.dom().contains(users[id]) && names[users[id]] == id
    &&& forall|name: Seq<char>| #[trigger]
        names.dom().contains(name) ==> users.dom().contains(names[name]) && users[names[name]] == name
}

/// Two empty stores are consistent.
pub proof fn law_empty_registry_consistent()
    ensures
        registry_consistent(Map::empty(), Map::empty()),
{
}

/// Registering a free name under an id not in use keeps the stores
/// consistent.
pub proof fn law_register_keeps_consistent(
    users: Map<u128, Seq<char>>,
    names: Map<Seq<char>, u128>,
    id: u128,
    name: Seq<char>,
)
    requires
        registry_consistent(users, names),
        !names.dom().contains(name),
        !users.dom().contains(id),
    ensures
        registry_consistent(users.insert(id, name), names.insert(name, id)),
{
}

/// Unregistering a user, together with its name, keeps the stores
/// consistent.
pub proof fn law_unregister_keeps_consistent(
    users: Map<u128, Seq<char>>,
    names: Map<Seq<char>, u128>,
    id: u128,
)
    requires
        registry_consistent(users, names),
        users.dom().contains(id),
    ensures
        registry_consistent(users.remove(id), names.remove(users[id])),
{
}

/// In consistent stores no two users share a name.
pub proof fn law_usernames_unique(users: Map<u128, Seq<char>>, names: Map<Seq<char>, u128>)
    requires
        registry_consistent(users, names),
    ensures
        forall|a: u128, b: u128|
            #![trigger users[a], users[b]]
            users.dom().contains(a) && users.dom().contains(b) && a != b ==> users[a] != users[b],
{
    assert forall|a: u128, b: u128|
        #![trigger users[a], users[b]]
        users.dom().contains(a) && users.dom().contains(b) && a != b implies users[a] != users[b] by {
        assert(names[users[a]] == a);
        assert(names[users[b]] == b);
    }
}

/// Consistent stores hold as many names as users.
pub proof fn law_consistent_stores_same_size(users: Map<u128, Seq<char>>, names: Map<Seq<char>, u128>)
    requires
        registry_consistent(users, names),
        users.dom().finite(),
    ensures
        names.dom().finite(),
        users.len() == names.len(),
{
    law_usernames_unique(users, names);
    let f = |id: u128| users[id];
    assert(injective_on(f, users.dom())) by {
        assert forall|a: u128, b: u128|
            users.dom().contains(a) && users.dom().contains(b) && #[trigger] f(a) == #[trigger] f(b)
            implies a == b by {
            if a != b {
                assert(users[a] != users[b]);
            }
        }
    }
    assert(users.dom().map(f) =~= names.dom()) by {
        assert forall|name: Seq<char>| names.dom().contains(name) implies #[trigger] users.dom().map(
            f,
        ).contains(name) by {
            assert(f(names[name]) == name);
        }
    }
    vstd::set_lib::lemma_map_size(users.dom(), names.dom(), f);
}

/// Registering a free name under an unused id and then unregistering that
/// id gives back the stores as they were.
pub proof fn law_register_then_unregister_restores(
    users: Map<u128, Seq<char>>,
    names: Map<Seq<char>, u128>,
    id: u128,
    name: Seq<char>,
)
    requires
        !names.dom().contains(name),
        !users.dom().contains(id),
    ensures
        users.insert(id, name).remove(id) == users,
        names.insert(name, id).remove(name) == names,
{
    assert(users.insert(id, name).remove(id) =~= users);
    assert(names.insert(name, id).remove(name) =~= names);
}

/// Creates the two empty stores of a chat room.
pub fn create_user_stores() -> (stores: (UserStore, UsernameStore))
    ensures
        user_table(stores.0) == Map::<u128, Seq<char>>::empty(),
        name_table(stores.1) == Map::<Seq<char>, u128>::empty(),
{
    (new_user_table(), new_name_table())
}

/// Registers a user under `username` with a fresh random id. A name that is
/// already registered is refused, and the stores are left as they were.
pub fn add_user(users: &mut UserStore, usernames: &mut UsernameStore, username: String) -> (result:
    Result<u128, String>)
    ensures
        result is Err <==> name_table(*old(usernames)).dom().contains(username@),
        result matches Err(error) ==> {
            &&& error@ == taken_message(username@)
            &&& user_table(*final(users)) == user_table(*old(users))
            &&& name_table(*final(usernames)) == name_table(*old(usernames))
        },
        result matches Ok(id) ==> {
            &&& is_v4_id(id)
            &&& user_table(*final(users)) == user_table(*old(users)).insert(id, username@)
            &&& name_table(*final(usernames)) == name_table(*old(usernames)).insert(username@, id)
        },
{
    if name_table_contains(usernames, username.as_str()) {
        let mut error = String::from_str("Username '");
        error.append(username.as_str());
        error.append("' is already taken");
        return Err(error);
    }
    let user_id = random_user_id();
    let user = User { username: username.clone() };
    user_table_insert(users, user_id, user);
    name_table_insert(usernames, username, user_id);
    Ok(user_id)
}

/// Unregisters the user with id `user_id` and frees its name; gives back the
/// name, or `None` when no user has that id.
pub fn remove_user(users: &mut UserStore, usernames: &mut UsernameStore, user_id: u128) -> (removed:
    Option<String>)
    ensures
        removed is Some <==> user_table(*old(users)).dom().contains(user_id),
        removed matches Some(name) ==> {
            &&& name@ == user_table(*old(users))[user_id]
            &&& user_table(*final(users)) == user_table(*old(users)).remove(user_id)
            &&& name_table(*final(usernames)) == name_table(*old(usernames)).remove(name@)
        },
        removed is None ==> {
            &&& user_table(*final(users)) == user_table(*old(users))
            &&& name_table(*final(usernames)) == name_table(*old(usernames))
        },
{
    match user_table_remove(users, user_id) {
        Some((_, user)) => {
            name_table_remove(usernames, user.username.as_str());
            Some(user.username)
        },
        None => None,
    }
}

/// Looks up the user with id `user_id`.
pub fn get_user(users: &UserStore, user_id: u128) -> (found: Option<User>)
    ensures
        found is Some <==> user_table(*users).dom().contains(user_id),
        found matches Some(user) ==> user.username@ == user_table(*users)[user_id],
{
    user_table_get(users, user_id)
}

} // verus!
