//! Access control: who may carry out the privileged operations.
use crate::address::Address;
use crate::error::Cep18Error;
use crate::events::{record_event_dictionary, recorded, views, ChangeSecurity, Event, EventView};
use crate::ledger::{Ledger, LedgerView};
use crate::security::SecurityBadge;
use crate::table::{lemma_place, Table};
use vstd::prelude::*;

verus! {

/// Whether `caller` holds a badge, and one of the allowed ones.
pub open spec fn authorized(
    badges: Map<Address, SecurityBadge>,
    caller: Address,
    allowed: Seq<SecurityBadge>,
) -> bool {
    badges.dom().contains(caller) && allowed.contains(badges[caller])
}

/// Whether `caller` holds the admin badge.
pub open spec fn is_admin(badges: Map<Address, SecurityBadge>, caller: Address) -> bool {
    badges.dom().contains(caller) && badges[caller] == SecurityBadge::Admin
}

/// The badge changes that three lists ask for on behalf of `caller`: each
/// listed identity but the caller gets a badge, and where it stands in more
/// than one list, the list of those stripped of rights outweighs the list of
/// admins, which outweighs the list of minters.
pub open spec fn badge_updates(
    admin_list: Seq<Address>,
    minter_list: Seq<Address>,
    none_list: Seq<Address>,
    caller: Address,
) -> Map<Address, SecurityBadge> {
    Map::new(
        |a: Address|
            a != caller && (admin_list.contains(a) || minter_list.contains(a) || none_list.contains(
                a,
            )),
        |a: Address|
            if none_list.contains(a) {
                SecurityBadge::NoRights
            } else if admin_list.contains(a) {
                SecurityBadge::Admin
            } else {
                SecurityBadge::Minter
            },
    )
}

/// The identities of an optional list: none where there is no list.
pub open spec fn listed(list: Option<Vec<Address>>) -> Seq<Address> {
    match list {
        Some(identities) => identities@,
        None => Seq::empty(),
    }
}

/// Whether `badge` is among `badges`.
fn badge_listed(badges: &Vec<SecurityBadge>, badge: SecurityBadge) -> (r: bool)
    ensures
        r == badges@.contains(badge),
{
    let mut i: usize = 0;
    while i < badges.len()
        invariant
            i <= badges@.len(),
            forall|j: int| 0 <= j < i ==> badges@[j] != badge,
        decreases badges@.len() - i,
    {
        if badges[i] == badge {
            return true;
        }
        i += 1;
    }
    false
}

/// Lets the caller pass if it holds one of the allowed badges.
pub fn sec_check(ledger: &Ledger, caller: Address, allowed_badge_list: &Vec<SecurityBadge>) -> (r:
    Result<(), Cep18Error>)
    requires
        ledger.wf(),
    ensures
        r == if authorized(ledger@.badges, caller, allowed_badge_list@) {
            Ok::<(), Cep18Error>(())
        } else {
            Err::<(), Cep18Error>(Cep18Error::InsufficientRights)
        },
{
    match ledger.badges.get(&caller) {
        Some(badge) => {
            if badge_listed(allowed_badge_list, *badge) {
                Ok(())
            } else {
                Err(Cep18Error::InsufficientRights)
            }
        },
        None => Err(Cep18Error::InsufficientRights),
    }
}

/// Lets the caller pass if it is an admin.
pub(crate) fn admin_check(ledger: &Ledger, caller: Address) -> (r: Result<(), Cep18Error>)
    requires
        ledger.wf(),
    ensures
        r == if is_admin(ledger@.badges, caller) {
            Ok::<(), Cep18Error>(())
        } else {
            Err::<(), Cep18Error>(Cep18Error::InsufficientRights)
        },
{
    let mut allowed: Vec<SecurityBadge> = Vec::new();
    allowed.push(SecurityBadge::Admin);
    proof {
        assert(allowed@ =~= seq![SecurityBadge::Admin]);
        assert(allowed@[0] == SecurityBadge::Admin);
    }
    sec_check(ledger, caller, &allowed)
}

/// Gives every identity of `badge_map` the badge that the map holds for it.
/// A building block of the operations: it asks for no rights.
pub fn change_sec_badge(ledger: &mut Ledger, badge_map: &Table<Address, SecurityBadge>)
    requires
        old(ledger).wf(),
        badge_map.wf(),
    ensures
        final(ledger).wf(),
        final(ledger)@ == (LedgerView {
            badges: old(ledger)@.badges.union_prefer_right(badge_map@),
            ..old(ledger)@
        }),
{
    let n: usize = badge_map.len();
    let mut i: usize = 0;
    while i < n
        invariant
            i <= n,
            n == badge_map.keys().len(),
            badge_map.wf(),
            ledger.wf(),
            ledger@ == (LedgerView { badges: ledger@.badges, ..old(ledger)@ }),
            forall|a: Address|
                #![trigger ledger.badges.has(a)]
                ledger.badges.has(a) <==> old(ledger).badges.has(a) || badge_map.keys().take(
                    i as int,
                ).contains(a),
            forall|a: Address|
                #![trigger ledger.badges.at(a)]
                ledger.badges.has(a) ==> ledger.badges.at(a) == if badge_map.keys().take(
                    i as int,
                ).contains(a) {
                    badge_map.at(a)
                } else {
                    old(ledger).badges.at(a)
                },
        decreases n - i,
    {
        let user: Address = *badge_map.key_at(i);
        let badge: SecurityBadge = *badge_map.value_at(i);
        let ghost before = ledger.badges;
        ledger.badges.set(user, badge);
        proof {
            lemma_place(badge_map.keys(), i as int);
            let done = badge_map.keys().take(i as int);
            let next = badge_map.keys().take(i + 1);
            assert(next =~= done.push(user));
            assert forall|a: Address| next.contains(a) <==> done.contains(a) || a == user by {
                if done.contains(a) {
                    let j = choose|j: int| 0 <= j < done.len() && done[j] == a;
                    assert(next[j] == a);
                }
                if a == user {
                    assert(next[i as int] == a);
                }
                if next.contains(a) && a != user {
                    let j = choose|j: int| 0 <= j < next.len() && next[j] == a;
                    assert(done[j] == a);
                }
            }
            assert(ledger.badges@ == before@.insert(user, badge));
            assert forall|a: Address|
                #![trigger ledger.badges.has(a)]
                ledger.badges.has(a) <==> old(ledger).badges.has(a) || next.contains(a) by {
                assert(ledger.badges.has(a) == ledger.badges@.dom().contains(a));
                assert(before.has(a) == before@.dom().contains(a));
            }
            assert forall|a: Address|
                #![trigger ledger.badges.at(a)]
                ledger.badges.has(a) implies ledger.badges.at(a) == if next.contains(a) {
                    badge_map.at(a)
                } else {
                    old(ledger).badges.at(a)
                } by {
                assert(ledger.badges.at(a) == ledger.badges@[a]);
                assert(before.has(a) == before@.dom().contains(a));
                if a != user {
                    assert(before.at(a) == before@[a]);
                }
            }
        }
        i += 1;
    }
    proof {
        assert(badge_map.keys().take(n as int) =~= badge_map.keys());
        assert(ledger@.badges =~= old(ledger)@.badges.union_prefer_right(badge_map@));
    }
}

/// Adds to `map` the badge `badge` for every identity of `list` but the one
/// to skip, if there is one.
pub(crate) fn list_badges(
    map: &mut Table<Address, SecurityBadge>,
    list: &Option<Vec<Address>>,
    badge: SecurityBadge,
    skip: Option<Address>,
)
    requires
        old(map).wf(),
    ensures
        final(map).wf(),
        forall|a: Address|
            #![trigger final(map).has(a)]
            final(map).has(a) <==> old(map).has(a) || (Some(a) != skip && listed(*list).contains(a)),
        forall|a: Address|
            #![trigger final(map).at(a)]
            final(map).has(a) ==> final(map).at(a) == if Some(a) != skip && listed(*list).contains(a) {
                badge
            } else {
                old(map).at(a)
            },
{
    match list {
        None => {},
        Some(identities) => {
            let mut i: usize = 0;
            while i < identities.len()
                invariant
                    i <= identities@.len(),
                    map.wf(),
                    listed(*list) == identities@,
                    forall|a: Address|
                        #![trigger map.has(a)]
                        map.has(a) <==> old(map).has(a) || (Some(a) != skip && identities@.take(
                            i as int,
                        ).contains(a)),
                    forall|a: Address|
                        #![trigger map.at(a)]
                        map.has(a) ==> map.at(a) == if Some(a) != skip && identities@.take(
                            i as int,
                        ).contains(a) {
                            badge
                        } else {
                            old(map).at(a)
                        },
                decreases identities@.len() - i,
            {
                let user: Address = identities[i];
                let ghost before = *map;
                let ghost done = identities@.take(i as int);
                let ghost next = identities@.take(i + 1);
                proof {
                    assert(next =~= done.push(user));
                    assert forall|a: Address| next.contains(a) <==> done.contains(a) || a
                        == user by {
                        if done.contains(a) {
                            let j = choose|j: int| 0 <= j < done.len() && done[j] == a;
                            assert(next[j] == a);
                        }
                        if a == user {
                            assert(next[i as int] == a);
                        }
                        if next.contains(a) && a != user {
                            let j = choose|j: int| 0 <= j < next.len() && next[j] == a;
                            assert(done[j] == a);
                        }
                    }
                }
                let skipped: bool = match skip {
                    Some(s) => user.equals(&s),
                    None => false,
                };
                if !skipped {
                    map.set(user, badge);
                    proof {
                        assert(map@ == before@.insert(user, badge));
                        assert forall|a: Address|
                            #![trigger map.has(a)]
                            map.has(a) <==> old(map).has(a) || (Some(a) != skip && next.contains(
                                a,
                            )) by {
                            assert(map.has(a) == map@.dom().contains(a));
                            assert(before.has(a) == before@.dom().contains(a));
                        }
                        assert forall|a: Address|
                            #![trigger map.at(a)]
                            map.has(a) implies map.at(a) == if Some(a) != skip && next.contains(a) {
                                badge
                            } else {
                                old(map).at(a)
                            } by {
                            assert(map.at(a) == map@[a]);
                            assert(before.has(a) == before@.dom().contains(a));
                            if a != user {
                                assert(before.at(a) == before@[a]);
                            }
                        }
                    }
                }
                i += 1;
            }
            proof {
                assert(identities@.take(identities@.len() as int) =~= identities@);
            }
        },
    }
}

/// Changes badges in bulk, on the word of an admin. The caller's own badge is
/// never changed by its own call.
pub fn change_security(
    ledger: &mut Ledger,
    caller: Address,
    admin_list: Option<Vec<Address>>,
    minter_list: Option<Vec<Address>>,
    none_list: Option<Vec<Address>>,
) -> (r: Result<Vec<Event>, Cep18Error>)
    requires
        old(ledger).wf(),
    ensures
        final(ledger).wf(),
        !is_admin(old(ledger)@.badges, caller) ==> r == Err::<Vec<Event>, Cep18Error>(
            Cep18Error::InsufficientRights,
        ) && *final(ledger) == *old(ledger),
        is_admin(old(ledger)@.badges, caller) ==> {
            let updates = badge_updates(
                listed(admin_list),
                listed(minter_list),
                listed(none_list),
                caller,
            );
            &&& r matches Ok(events)
            &&& views(events@) == recorded(
                old(ledger)@.events_mode,
                seq![EventView::ChangeSecurity { admin: caller, sec_change_map: updates }],
            )
            &&& final(ledger)@ == (LedgerView {
                badges: old(ledger)@.badges.union_prefer_right(updates),
                ..old(ledger)@
            })
        },
{
    match admin_check(ledger, caller) {
        Err(e) => {
            return Err(e);
        },
        Ok(_) => {},
    }
    let mut badge_map: Table<Address, SecurityBadge> = Table::new();
    list_badges(&mut badge_map, &minter_list, SecurityBadge::Minter, Some(caller));
    list_badges(&mut badge_map, &admin_list, SecurityBadge::Admin, Some(caller));
    list_badges(&mut badge_map, &none_list, SecurityBadge::NoRights, Some(caller));
    proof {
        assert(badge_map@ =~= badge_updates(
            listed(admin_list),
            listed(minter_list),
            listed(none_list),
            caller,
        ));
    }
    change_sec_badge(ledger, &badge_map);
    let mut events: Vec<Event> = Vec::new();
    let event = Event::ChangeSecurity(ChangeSecurity { admin: caller, sec_change_map: badge_map });
    record_event_dictionary(ledger.events_mode, event, &mut events);
    proof {
        assert(views(events@) =~= recorded(ledger.events_mode, seq![event@]));
    }
    Ok(events)
}

} // verus!
