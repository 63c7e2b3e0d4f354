//! Which users a change to a folder concerns: those that refer to the
//! folder as one of their virtual folders.

use crate::crds::folder::SftpgoFolder;
use crate::crds::user::SftpgoUser;
use crate::crds::virtual_folder_reference::VirtualFolderReference;
use crate::text::str_eq;
use vstd::prelude::*;

verus! {

/// Whether a reference of a user in `user_namespace` means the folder
/// `folder_name` in `folder_namespace`: the names are the same, and so
/// are the namespaces, where that of the reference is that of the
/// user if it names none.
pub open spec fn refers_to(
    reference: VirtualFolderReference,
    user_namespace: Seq<char>,
    folder_name: Seq<char>,
    folder_namespace: Seq<char>,
) -> bool {
    &&& reference.name@ == folder_name
    &&& match reference.namespace {
        Some(ns) => ns@ == folder_namespace,
        None => user_namespace == folder_namespace,
    }
}

/// Whether one of a list of references of a user means a folder.
pub open spec fn any_refers_to(
    references: Seq<VirtualFolderReference>,
    user_namespace: Seq<char>,
    folder_name: Seq<char>,
    folder_namespace: Seq<char>,
) -> bool {
    exists|i: int|
        0 <= i < references.len() && refers_to(
            #[trigger] references[i],
            user_namespace,
            folder_name,
            folder_namespace,
        )
}

/// Whether a user refers to a folder: it has a namespace, and one of
/// its virtual folders means the folder.
pub open spec fn concerns(user: SftpgoUser, folder_name: Seq<char>, folder_namespace: Seq<char>) -> bool {
    match user.metadata.namespace {
        Some(user_ns) => match user.spec.configuration.virtual_folders {
            Some(references) => any_refers_to(references@, user_ns@, folder_name, folder_namespace),
            None => false,
        },
        None => false,
    }
}

/// Those of the first `n` users that refer to a folder, in order.
pub open spec fn concerned(
    users: Seq<SftpgoUser>,
    folder_name: Seq<char>,
    folder_namespace: Seq<char>,
    n: nat,
) -> Seq<SftpgoUser>
    decreases n,
{
    if n == 0 || n > users.len() {
        Seq::empty()
    } else if concerns(users[n - 1], folder_name, folder_namespace) {
        concerned(users, folder_name, folder_namespace, (n - 1) as nat).push(users[n - 1])
    } else {
        concerned(users, folder_name, folder_namespace, (n - 1) as nat)
    }
}

/// The namespace of a folder, or the empty text where it has none.
pub open spec fn namespace_of(folder: SftpgoFolder) -> Seq<char> {
    match folder.metadata.namespace {
        Some(ns) => ns@,
        None => Seq::empty(),
    }
}

/// The users behind a list of references to users.
pub open spec fn referents(list: Seq<&SftpgoUser>) -> Seq<SftpgoUser> {
    list.map_values(|u: &SftpgoUser| *u)
}

fn user_concerned(user: &SftpgoUser, folder_name: &str, folder_namespace: &str) -> (b: bool)
    ensures
        b == concerns(*user, folder_name@, folder_namespace@),
{
    let user_ns = match &user.metadata.namespace {
        Some(ns) => ns,
        None => {
            return false;
        },
    };
    let references = match &user.spec.configuration.virtual_folders {
        Some(r) => r,
        None => {
            return false;
        },
    };
    let mut i: usize = 0;
    while i < references.len()
        invariant
            i <= references.len(),
            user.metadata.namespace == Some(*user_ns),
            user.spec.configuration.virtual_folders == Some(*references),
            forall|k: int|
                0 <= k < i ==> !refers_to(
                    #[trigger] references@[k],
                    user_ns@,
                    folder_name@,
                    folder_namespace@,
                ),
        decreases references.len() - i,
    {
        let v = &references[i];
        if str_eq(v.name.as_str(), folder_name) {
            let same_namespace = match &v.namespace {
                Some(ns) => str_eq(ns.as_str(), folder_namespace),
                None => str_eq(user_ns.as_str(), folder_namespace),
            };
            if same_namespace {
                proof {
                    assert(refers_to(
                        references@[i as int],
                        user_ns@,
                        folder_name@,
                        folder_namespace@,
                    ));
                }
                return true;
            }
        }
        i += 1;
    }
    false
}

/// The users that a change to `folder` concerns: those of `users` that
/// refer to the folder, in order.
pub fn list_users<'a>(folder: &SftpgoFolder, users: &'a Vec<SftpgoUser>) -> (items: Vec<&'a SftpgoUser>)
    ensures
        referents(items@) == concerned(
            users@,
            folder.metadata.spec_name_any(),
            namespace_of(*folder),
            users@.len(),
        ),
{
    let folder_name = folder.metadata.name_any();
    let folder_namespace = match &folder.metadata.namespace {
        Some(ns) => ns.clone(),
        None => String::new(),
    };
    let mut items: Vec<&'a SftpgoUser> = Vec::new();
    let mut i: usize = 0;
    while i < users.len()
        invariant
            i <= users.len(),
            folder_name@ == folder.metadata.spec_name_any(),
            folder_namespace@ == namespace_of(*folder),
            referents(items@) == concerned(users@, folder_name@, folder_namespace@, i as nat),
        decreases users.len() - i,
    {
        if user_concerned(&users[i], folder_name.as_str(), folder_namespace.as_str()) {
            proof {
                assert(referents(items@.push(&users[i as int])) =~= referents(items@).push(
                    users@[i as int],
                ));
            }
            items.push(&users[i]);
        }
        i += 1;
    }
    items
}

} // verus!
