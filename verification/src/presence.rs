//! Matching the router's answers against the configuration: finding a
//! client by name, and telling who is home.

use vstd::prelude::*;
use vstd::string::StringExecFns;

use crate::config::{Person, PersonView};
use crate::router::{Client, ClientView};

verus! {

/// The first client of that name, if any.
pub open spec fn spec_find_by_name(clients: Seq<ClientView>, name: Seq<char>) -> Option<ClientView>
    decreases clients.len(),
{
    if clients.len() == 0 {
        None
    } else if clients[0].name == name {
        Some(clients[0])
    } else {
        spec_find_by_name(clients.drop_first(), name)
    }
}

/// The first client named `name`, or `None` when the listing holds none.
pub fn find_by_name(clients: &Vec<Client>, name: &str) -> (r: Option<Client>)
    ensures
        match r {
            Some(c) => spec_find_by_name(clients.deep_view(), name@) == Some(c@),
            None => spec_find_by_name(clients.deep_view(), name@) is None,
        },
{
    let key = String::from_str(name);
    let n = clients.len();
    let mut i: usize = 0;
    proof {
        assert(clients.deep_view().skip(0) =~= clients.deep_view());
    }
    while i < n
        invariant
            n == clients@.len(),
            i <= n,
            key@ == name@,
            spec_find_by_name(clients.deep_view(), name@) == spec_find_by_name(
                clients.deep_view().skip(i as int),
                name@,
            ),
        decreases n - i,
    {
        proof {
            assert(clients.deep_view().skip(i as int).len() == n - i);
            assert(clients.deep_view().skip(i as int)[0] == clients@[i as int].deep_view());
            assert(clients.deep_view().skip(i as int).drop_first() =~= clients.deep_view().skip(
                i + 1,
            ));
        }
        if clients[i].name.eq(&key) {
            return Some(Client { name: clients[i].name.clone(), mac: clients[i].mac.clone() });
        }
        i = i + 1;
    }
    proof {
        assert(clients.deep_view().skip(i as int).len() == 0);
    }
    None
}

/// Whether some online client bears this device name.
pub open spec fn spec_device_online(clients: Seq<ClientView>, device: Seq<char>) -> bool {
    exists|i: int| 0 <= i < clients.len() && clients[i].name == device
}

/// Whether one of the person's devices is online.
pub open spec fn spec_person_home(person: PersonView, clients: Seq<ClientView>) -> bool {
    exists|i: int| 0 <= i < person.devices.len() && spec_device_online(clients, person.devices[i])
}

/// The names of the persons at home, in configuration order.
pub open spec fn spec_who_is_home(persons: Seq<PersonView>, clients: Seq<ClientView>) -> Seq<
    Seq<char>,
>
    decreases persons.len(),
{
    if persons.len() == 0 {
        Seq::empty()
    } else {
        let rest = spec_who_is_home(persons.drop_last(), clients);
        if spec_person_home(persons.last(), clients) {
            rest.push(persons.last().name)
        } else {
            rest
        }
    }
}

fn device_online(clients: &Vec<Client>, device: &String) -> (r: bool)
    ensures
        r == spec_device_online(clients.deep_view(), device@),
{
    let n = clients.len();
    let mut i: usize = 0;
    while i < n
        invariant
            n == clients@.len(),
            i <= n,
            forall|k: int| 0 <= k < i ==> clients.deep_view()[k].name != device@,
        decreases n - i,
    {
        if clients[i].name.eq(device) {
            proof {
                assert(clients.deep_view()[i as int].name == device@);
            }
            return true;
        }
        i = i + 1;
    }
    false
}

fn person_home(person: &Person, clients: &Vec<Client>) -> (r: bool)
    ensures
        r == spec_person_home(person@, clients.deep_view()),
{
    let n = person.devices.len();
    let mut i: usize = 0;
    while i < n
        invariant
            n == person.devices@.len(),
            i <= n,
            forall|k: int|
                0 <= k < i ==> !spec_device_online(clients.deep_view(), person@.devices[k]),
        decreases n - i,
    {
        if device_online(clients, &person.devices[i]) {
            proof {
                assert(spec_device_online(clients.deep_view(), person@.devices[i as int]));
            }
            return true;
        }
        i = i + 1;
    }
    false
}

/// The names of the persons one of whose devices appears, by name, among
/// the online clients — in configuration order.
pub fn who_is_home(persons: &Vec<Person>, online: &Vec<Client>) -> (r: Vec<String>)
    ensures
        r.deep_view() == spec_who_is_home(persons.deep_view(), online.deep_view()),
{
    let mut r: Vec<String> = Vec::new();
    let n = persons.len();
    let mut i: usize = 0;
    proof {
        assert(r.deep_view() =~= spec_who_is_home(persons.deep_view().take(0), online.deep_view()));
    }
    while i < n
        invariant
            n == persons@.len(),
            i <= n,
            r.deep_view() =~= spec_who_is_home(persons.deep_view().take(i as int), online.deep_view()),
        decreases n - i,
    {
        let ghost pre = r.deep_view();
        proof {
            assert(persons.deep_view().take(i + 1).drop_last() =~= persons.deep_view().take(
                i as int,
            ));
            assert(persons.deep_view().take(i + 1).last() == persons@[i as int].deep_view());
            assert(persons@[i as int].deep_view() == persons@[i as int]@);
        }
        if person_home(&persons[i], online) {
            r.push(persons[i].name.clone());
            proof {
                assert(r.deep_view() =~= pre.push(persons@[i as int]@.name));
            }
        }
        i = i + 1;
    }
    proof {
        assert(persons.deep_view().take(n as int) =~= persons.deep_view());
    }
    r
}

} // verus!
