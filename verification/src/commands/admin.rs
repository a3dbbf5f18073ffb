//! Roles that members hand to themselves by pressing a button.
//!
//! A role is offered only if it grants nothing beyond what every member has anyway.
//! Each button carries the identifier of the command that made it and the role it
//! stands for, separated by a colon.

use crate::text::{
    all_digits, decimal, decimal_string, is_digit, join, joined, lemma_decimal_is_digits,
    lemma_parse_decimal, parse_u64, parsed_u64,
};
use vstd::prelude::*;
use vstd::string::{StrSliceExecFns, StringExecFns};

verus! {

/// What the role check reads of a role.
pub struct RoleInfo {
    pub id: u64,
    pub name: String,
    /// The permissions the role grants, one bit for each.
    pub permissions: u64,
}

pub struct RoleInfoView {
    pub id: u64,
    pub name: Seq<char>,
    pub permissions: u64,
}

impl View for RoleInfo {
    type V = RoleInfoView;

    open spec fn view(&self) -> RoleInfoView {
        RoleInfoView { id: self.id, name: self.name@, permissions: self.permissions }
    }
}

impl DeepView for RoleInfo {
    type V = RoleInfoView;

    open spec fn deep_view(&self) -> RoleInfoView {
        self@
    }
}

/// Every permission that has a name: bits 0 to 46 and 48 to 50.
pub const KNOWN_PERMISSIONS: u64 = 0x0007_7fff_ffff_ffff;

/// The permissions that every member has by default: bits 0, 6, 10 to 12, 14 to 18,
/// 20, 21, 25 and 26.
pub const GENERAL_PERMISSIONS: u64 = 0x0637_dc41;

/// The permissions that no self-assigned role may grant: every known one that is not
/// general.
pub open spec fn dangerous_mask() -> u64 {
    KNOWN_PERMISSIONS & !GENERAL_PERMISSIONS
}

/// The display names of the permissions in `bits`, as serenity lists them.
pub uninterp spec fn permission_names_of(bits: u64) -> Seq<Seq<char>>;

/// The complement of serenity's `PRESET_GENERAL`, as bits. The contract claims that it
/// is the set of all permissions serenity defines without those that the preset lists.
#[verifier::external_body]
fn dangerous_permissions() -> (mask: u64)
    ensures
        mask == dangerous_mask(),
{
    serenity::model::permissions::PRESET_GENERAL.complement().bits()
}

/// Serenity's `Permissions::get_permission_names` on the permissions in `bits`. The
/// contract only gives the list a name: it depends on `bits` alone.
#[verifier::external_body]
fn permission_names(bits: u64) -> (names: Vec<String>)
    ensures
        names.deep_view() == permission_names_of(bits),
{
    serenity::model::permissions::Permissions::from_bits_truncate(bits)
        .get_permission_names()
        .into_iter()
        .map(String::from)
        .collect()
}

/// Whether `permissions` holds any permission of `mask`.
pub open spec fn intersects(permissions: u64, mask: u64) -> bool {
    permissions & mask != 0
}

/// The index of the first role that grants a permission of `mask`.
pub open spec fn first_offender(roles: Seq<RoleInfoView>, mask: u64) -> Option<int>
    decreases roles.len(),
{
    if roles.len() == 0 {
        None
    } else {
        match first_offender(roles.drop_last(), mask) {
            Some(i) => Some(i),
            None => if intersects(roles.last().permissions, mask) {
                Some(roles.len() - 1)
            } else {
                None
            },
        }
    }
}

/// `first_offender` finds an offending role, the first of them, if and only if there
/// is one.
pub proof fn lemma_first_offender(roles: Seq<RoleInfoView>, mask: u64)
    ensures
        match first_offender(roles, mask) {
            Some(i) => 0 <= i < roles.len() && intersects(roles[i].permissions, mask)
                && forall|j: int| 0 <= j < i ==> !intersects(#[trigger] roles[j].permissions, mask),
            None => forall|j: int|
                0 <= j < roles.len() ==> !intersects(#[trigger] roles[j].permissions, mask),
        },
    decreases roles.len(),
{
    if roles.len() > 0 {
        lemma_first_offender(roles.drop_last(), mask);
        assert forall|j: int| 0 <= j < roles.len() - 1 implies roles.drop_last()[j] == roles[j] by {}
        match first_offender(roles.drop_last(), mask) {
            Some(i) => {
                assert forall|j: int| 0 <= j < i implies !intersects(
                    #[trigger] roles[j].permissions,
                    mask,
                ) by {
                    assert(roles.drop_last()[j] == roles[j]);
                }
            },
            None => {
                assert forall|j: int| 0 <= j < roles.len() - 1 implies !intersects(
                    #[trigger] roles[j].permissions,
                    mask,
                ) by {
                    assert(roles.drop_last()[j] == roles[j]);
                }
            },
        }
    }
}

/// Finds the first role that grants a permission of `mask`.
pub fn find_offender(roles: &Vec<RoleInfo>, mask: u64) -> (found: Option<usize>)
    ensures
        match found {
            Some(i) => first_offender(roles.deep_view(), mask) == Some(i as int),
            None => first_offender(roles.deep_view(), mask) is None,
        },
{
    let ghost all = roles.deep_view();
    let mut i: usize = 0;
    while i < roles.len()
        invariant
            i <= roles.len(),
            all == roles.deep_view(),
            first_offender(all.take(i as int), mask) is None,
        decreases roles.len() - i,
    {
        proof {
            let next = all.take(i + 1);
            assert(next.drop_last() =~= all.take(i as int));
            assert(next.last() == roles[i as int]@);
            lemma_offender_stays(all, mask, i + 1);
        }
        if roles[i].permissions & mask != 0 {
            return Some(i);
        }
        i = i + 1;
    }
    assert(all.take(roles.len() as int) =~= all);
    None
}

/// An offender among the first `k` roles is the first offender of them all.
proof fn lemma_offender_stays(roles: Seq<RoleInfoView>, mask: u64, k: int)
    requires
        0 <= k <= roles.len(),
    ensures
        first_offender(roles.take(k), mask) is Some ==> first_offender(roles, mask)
            == first_offender(roles.take(k), mask),
    decreases roles.len() - k,
{
    if k < roles.len() {
        lemma_offender_stays(roles, mask, k + 1);
        assert(roles.take(k + 1).drop_last() =~= roles.take(k));
    } else {
        assert(roles.take(k) =~= roles);
    }
}

/// The warning about a role that may not be offered: its name in quotes, then the
/// permissions that are in the way as a bulleted list.
pub open spec fn warning_text(name: Seq<char>, permissions: Seq<Seq<char>>) -> Seq<char> {
    seq!['\''] + name + "' has dangerous permissions:\n* "@ + joined(permissions, "\n* "@)
}

/// Words the warning about a role.
pub fn danger_warning(name: &str, permissions: &Vec<String>) -> (warning: String)
    ensures
        warning@ == warning_text(name@, permissions.deep_view()),
{
    proof {
        reveal_strlit("'");
    }
    let mut warning = String::from_str("'");
    warning.append(name);
    warning.append("' has dangerous permissions:\n* ");
    warning.append(join(permissions, "\n* ").as_str());
    assert("'"@ =~= seq!['\'']);
    warning
}

/// What stands in the way of offering `roles`: the warning about the first role that
/// grants a dangerous permission, naming the dangerous permissions it grants.
pub open spec fn role_warning(roles: Seq<RoleInfoView>) -> Option<Seq<char>> {
    match first_offender(roles, dangerous_mask()) {
        Some(i) => Some(
            warning_text(
                roles[i].name,
                permission_names_of(roles[i].permissions & dangerous_mask()),
            ),
        ),
        None => None,
    }
}

/// Checks the roles that a command is to offer. `None` means that all may be offered.
pub fn check_roles(roles: &Vec<RoleInfo>) -> (warning: Option<String>)
    ensures
        warning.deep_view() == role_warning(roles.deep_view()),
{
    let mask = dangerous_permissions();
    match find_offender(roles, mask) {
        Some(i) => {
            proof {
                lemma_first_offender(roles.deep_view(), mask);
                assert(roles.deep_view()[i as int] == roles[i as int]@);
            }
            let names = permission_names(roles[i].permissions & mask);
            Some(danger_warning(roles[i].name.as_str(), &names))
        },
        None => None,
    }
}

/// The identifier of the button that stands for `role_id` in the answer to the command
/// `ctx_id`: the two numbers in decimal, separated by a colon.
pub open spec fn role_button(ctx_id: u64, role_id: u64) -> Seq<char> {
    decimal(ctx_id as nat) + seq![':'] + decimal(role_id as nat)
}

/// Names the button that stands for a role.
pub fn role_button_id(ctx_id: u64, role_id: u64) -> (id: String)
    ensures
        id@ == role_button(ctx_id, role_id),
{
    proof {
        reveal_strlit(":");
    }
    let mut id = decimal_string(ctx_id);
    id.append(":");
    id.append(decimal_string(role_id).as_str());
    assert(":"@ =~= seq![':']);
    id
}

/// What follows the first colon of `s`, if it has a colon.
pub open spec fn after_colon(s: Seq<char>) -> Option<Seq<char>>
    decreases s.len(),
{
    if s.len() == 0 {
        None
    } else if s[0] == ':' {
        Some(s.subrange(1, s.len() as int))
    } else {
        after_colon(s.subrange(1, s.len() as int))
    }
}

/// The role that a button identifier stands for: the number after its first colon.
pub open spec fn selected_role_of(custom_id: Seq<char>) -> Option<u64> {
    match after_colon(custom_id) {
        Some(rest) => parsed_u64(rest),
        None => None,
    }
}

/// Reads the role out of the identifier of a pressed button. `None` means that the
/// identifier has no colon, or no number after it.
pub fn selected_role(custom_id: &str) -> (role: Option<u64>)
    ensures
        role == selected_role_of(custom_id@),
{
    let n = custom_id.unicode_len();
    let mut i: usize = 0;
    assert(custom_id@.subrange(0, n as int) =~= custom_id@);
    while i < n
        invariant
            i <= n,
            n == custom_id@.len(),
            after_colon(custom_id@) == after_colon(custom_id@.subrange(i as int, n as int)),
        decreases n - i,
    {
        let ghost rest = custom_id@.subrange(i as int, n as int);
        proof {
            assert(rest[0] == custom_id@[i as int]);
            assert(rest.subrange(1, rest.len() as int) =~= custom_id@.subrange(i + 1, n as int));
        }
        if custom_id.get_char(i) == ':' {
            return parse_u64(custom_id.substring_char(i + 1, n));
        }
        i = i + 1;
    }
    None
}

/// The answer to a member who picked a role: a mention of the role.
pub open spec fn selection_text(role_id: u64) -> Seq<char> {
    "Selected <@&"@ + decimal(role_id as nat) + seq!['>']
}

/// Words the answer to a member who picked a role.
pub fn selection_reply(role_id: u64) -> (reply: String)
    ensures
        reply@ == selection_text(role_id),
{
    proof {
        reveal_strlit(">");
    }
    let mut reply = String::from_str("Selected <@&");
    reply.append(decimal_string(role_id).as_str());
    reply.append(">");
    assert(">"@ =~= seq!['>']);
    reply
}

/// A digit string followed by a colon and more has that rest after its first colon.
proof fn lemma_after_colon_skips_digits(digits: Seq<char>, rest: Seq<char>)
    requires
        all_digits(digits),
    ensures
        after_colon(digits + seq![':'] + rest) == Some(rest),
    decreases digits.len(),
{
    let s = digits + seq![':'] + rest;
    if digits.len() == 0 {
        assert(s[0] == ':');
        assert(s.subrange(1, s.len() as int) =~= rest);
    } else {
        assert(s[0] == digits[0]);
        assert(is_digit(digits[0]));
        let tail = digits.subrange(1, digits.len() as int);
        assert(s.subrange(1, s.len() as int) =~= tail + seq![':'] + rest);
        assert forall|i: int| 0 <= i < tail.len() implies is_digit(#[trigger] tail[i]) by {
            assert(tail[i] == digits[i + 1]);
        }
        lemma_after_colon_skips_digits(tail, rest);
    }
}

/// The role read out of a button's identifier is the role the button was made for.
pub proof fn lemma_button_names_its_role(ctx_id: u64, role_id: u64)
    ensures
        selected_role_of(role_button(ctx_id, role_id)) == Some(role_id),
{
    lemma_decimal_is_digits(ctx_id as nat);
    lemma_after_colon_skips_digits(decimal(ctx_id as nat), decimal(role_id as nat));
    lemma_parse_decimal(role_id);
}

} // verus!
