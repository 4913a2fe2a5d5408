//! Declared units and their granted permissions. Unit names are
//! canonicalized once, at configuration load: a bare name without a `.` is
//! suffixed with the default unit-type extension `.service`.

use vstd::prelude::*;
use crate::text::{str_contains_char, views_of, lemma_views_of_push};

verus! {

/// A single permission a unit grants: to be started, stopped, or queried
/// for status. Restart is never stored; it is derived from Start and Stop.
#[derive(Debug, Clone, Copy, PartialEq, Eq, Hash, Structural)]
pub enum UnitPermission {
    Start,
    Stop,
    Status,
}

/// A declared unit: its canonical name and the permissions it grants.
#[derive(Debug, Clone)]
pub struct Unit {
    pub name: String,
    pub permissions: Vec<UnitPermission>,
}

/// Ghost mirror of `Unit`.
pub struct UnitView {
    pub name: Seq<char>,
    pub permissions: Seq<UnitPermission>,
}

impl View for Unit {
    type V = UnitView;

    open spec fn view(&self) -> UnitView {
        UnitView { name: self.name@, permissions: self.permissions@ }
    }
}

impl UnitView {
    pub open spec fn has_permission(self, p: UnitPermission) -> bool {
        self.permissions.contains(p)
    }

    pub open spec fn has_all(self, required: Seq<UnitPermission>) -> bool {
        forall|p: UnitPermission| required.contains(p) ==> self.has_permission(p)
    }
}

/// A unit name as stored in the registry: unchanged if it holds a `.`,
/// otherwise suffixed with `.service`.
pub open spec fn canonical_name(name: Seq<char>) -> Seq<char> {
    if name.contains('.') {
        name
    } else {
        name + ".service"@
    }
}

/// Canonicalizes a configured unit name, the only string transformation the
/// library performs on identifiers.
pub fn canonicalize_unit_name(name: String) -> (r: String)
    ensures
        r@ == canonical_name(name@),
{
    if str_contains_char(name.as_str(), '.') {
        name
    } else {
        name.concat(".service")
    }
}

impl Unit {
    /// Builds a unit from a configured name and permission set, applying
    /// name canonicalization.
    pub fn new(name: String, permissions: Vec<UnitPermission>) -> (u: Unit)
        ensures
            u@.name == canonical_name(name@),
            u@.permissions == permissions@,
    {
        Unit { name: canonicalize_unit_name(name), permissions }
    }
}

/// The names, in declaration order, of the units granting every permission
/// in `required`.
pub open spec fn units_with_permissions_spec(units: Seq<Unit>, required: Seq<UnitPermission>) -> Seq<
    Seq<char>,
>
    decreases units.len(),
{
    if units.len() == 0 {
        Seq::empty()
    } else {
        let prefix = units_with_permissions_spec(units.drop_last(), required);
        if units.last()@.has_all(required) {
            prefix.push(units.last()@.name)
        } else {
            prefix
        }
    }
}

/// Whether `unit` grants every permission in `required`.
fn has_all_permissions(unit: &Unit, required: &Vec<UnitPermission>) -> (r: bool)
    ensures
        r == unit@.has_all(required@),
{
    let mut i: usize = 0;
    while i < required.len()
        invariant
            i <= required@.len(),
            forall|j: int| 0 <= j < i ==> unit@.has_permission(required@[j]),
        decreases required@.len() - i,
    {
        let p = required[i];
        let mut found = false;
        let mut k: usize = 0;
        while k < unit.permissions.len()
            invariant
                k <= unit.permissions@.len(),
                found ==> unit@.has_permission(p),
                !found ==> forall|j: int| 0 <= j < k ==> unit.permissions@[j] != p,
            decreases unit.permissions@.len() - k,
        {
            if unit.permissions[k] == p {
                found = true;
                proof {
                    assert(unit.permissions@[k as int] == p);
                }
            }
            k += 1;
        }
        if !found {
            proof {
                assert(required@.contains(p));
            }
            return false;
        }
        i += 1;
    }
    true
}

/// The names of the units granting every permission in `permissions`, in
/// declaration order.
pub fn get_units_with_permissions(units: &Vec<Unit>, permissions: &Vec<UnitPermission>) -> (r: Vec<
    String,
>)
    ensures
        views_of(r@) == units_with_permissions_spec(units@, permissions@),
{
    broadcast use lemma_views_of_push;

    let mut r: Vec<String> = Vec::new();
    let mut i: usize = 0;
    proof {
        assert(views_of(r@) =~= Seq::<Seq<char>>::empty());
        assert(units@.subrange(0, 0) =~= Seq::<Unit>::empty());
    }
    while i < units.len()
        invariant
            i <= units@.len(),
            views_of(r@) == units_with_permissions_spec(
                units@.subrange(0, i as int),
                permissions@,
            ),
        decreases units@.len() - i,
    {
        proof {
            let upto = units@.subrange(0, i + 1);
            assert(upto.drop_last() =~= units@.subrange(0, i as int));
            assert(upto.last() == units@[i as int]);
        }
        if has_all_permissions(&units[i], permissions) {
            r.push(units[i].name.clone());
        }
        i += 1;
    }
    proof {
        assert(units@.subrange(0, units@.len() as int) =~= units@);
    }
    r
}

/// The names of the units that may be queried for status, in declaration
/// order.
pub fn get_units_with_status_permissions(units: &Vec<Unit>) -> (r: Vec<String>)
    ensures
        views_of(r@) == units_with_permissions_spec(units@, seq![UnitPermission::Status]),
{
    let required: Vec<UnitPermission> = vec![UnitPermission::Status];
    proof {
        assert(required@ =~= seq![UnitPermission::Status]);
    }
    get_units_with_permissions(units, &required)
}

/// Membership in a derived per-permission list means exactly that some
/// declared unit has that name and grants every required permission.
pub proof fn lemma_units_with_permissions_contains(
    units: Seq<Unit>,
    required: Seq<UnitPermission>,
    name: Seq<char>,
)
    ensures
        units_with_permissions_spec(units, required).contains(name) <==> exists|i: int|
            0 <= i < units.len() && units[i]@.name == name && units[i]@.has_all(required),
    decreases units.len(),
{
    if units.len() == 0 {
    } else {
        let prefix = units.drop_last();
        lemma_units_with_permissions_contains(prefix, required, name);
        let derived = units_with_permissions_spec(units, required);
        let derived_prefix = units_with_permissions_spec(prefix, required);
        if units.last()@.has_all(required) {
            assert(derived == derived_prefix.push(units.last()@.name));
        }
        if derived.contains(name) {
            if units.last()@.has_all(required) && units.last()@.name == name {
                assert(units[units.len() - 1]@.name == name && units[units.len() - 1]@.has_all(
                    required,
                ));
            } else {
                assert(derived_prefix.contains(name));
                let i = choose|i: int|
                    0 <= i < prefix.len() && prefix[i]@.name == name && prefix[i]@.has_all(
                        required,
                    );
                assert(units[i]@.name == name && units[i]@.has_all(required));
            }
        }
        if exists|i: int| 0 <= i < units.len() && units[i]@.name == name && units[i]@.has_all(
            required,
        ) {
            let i = choose|i: int|
                0 <= i < units.len() && units[i]@.name == name && units[i]@.has_all(required);
            if i == units.len() - 1 {
                assert(derived[derived.len() - 1] == name);
                assert(derived.contains(name));
            } else {
                assert(prefix[i]@.name == name && prefix[i]@.has_all(required));
                assert(derived_prefix.contains(name));
                let j = choose|j: int| 0 <= j < derived_prefix.len() && derived_prefix[j] == name;
                assert(derived[j] == name);
                assert(derived.contains(name));
            }
        }
    }
}

} // verus!
