use vstd::prelude::*;
use crate::instance::{update_post, Instance, InstanceMessage, InstanceRecord, Operation};
use crate::paths::{join, path_join};

verus! {

/// A command for the application as a whole.
#[derive(Clone, Debug)]
pub enum Message {
    /// The name typed for the next installation changed.
    NameChanged(String),
    /// Install a new instance under the typed name.
    StartInstallation,
    /// A command for the instance at the given path.
    InstanceMessage(String, InstanceMessage),
    /// An installation finished, with the new instance if it succeeded.
    Installed(Option<InstanceRecord>),
    /// An update of the instance at the given path finished, with the
    /// updated instance if it succeeded.
    Updated(String, Option<InstanceRecord>),
    /// A removal finished, with the removed path if it succeeded.
    Deleted(Option<String>),
}

/// A name fit to be a directory directly under the instances directory.
pub open spec fn valid_install_name(n: Seq<char>) -> bool {
    n.len() > 0 && !n.contains('/')
}

pub open spec fn has_path(s: Seq<Instance>, p: Seq<char>) -> bool {
    exists|i: int| 0 <= i < s.len() && (#[trigger] s[i]).path@ == p
}

/// No two instances share a path.
pub open spec fn unique_paths(s: Seq<Instance>) -> bool {
    forall|i: int, j: int|
        0 <= i < s.len() && 0 <= j < s.len() && i != j ==> (#[trigger] s[i]).path@ != (
        #[trigger] s[j]).path@
}

/// The position of the instance at path `p`.
pub open spec fn index_of(s: Seq<Instance>, p: Seq<char>) -> int {
    choose|i: int| 0 <= i < s.len() && (#[trigger] s[i]).path@ == p
}

/// Under unique paths, the instance found at a path is the one `index_of`
/// names.
pub proof fn lemma_index_of_unique(s: Seq<Instance>, i: int)
    requires
        unique_paths(s),
        0 <= i < s.len(),
    ensures
        index_of(s, s[i].path@) == i,
{
    let p = s[i].path@;
    assert(0 <= i < s.len() && s[i].path@ == p);
    let j = index_of(s, p);
    assert(0 <= j < s.len() && s[j].path@ == p);
}

/// Whether `s` holds the character `c`.
pub fn contains_char(s: &str, c: char) -> (r: bool)
    ensures
        r == s@.contains(c),
{
    let n = s.unicode_len();
    let mut i: usize = 0;
    while i < n
        invariant
            n == s@.len(),
            i <= n,
            forall|j: int| 0 <= j < i ==> s@[j] != c,
        decreases n - i,
    {
        if s.get_char(i) == c {
            return true;
        }
        i = i + 1;
    }
    false
}

/// The application's state: the typed installation name and the
/// registry of instances.
pub struct ESLauncher {
    install_name: String,
    instances: Vec<Instance>,
}

impl ESLauncher {
    pub open spec fn wf(&self) -> bool {
        unique_paths(self.model())
    }

    pub closed spec fn typed_name(&self) -> Seq<char> {
        self.install_name@
    }

    pub closed spec fn model(&self) -> Seq<Instance> {
        self.instances@
    }

    pub fn new() -> (r: ESLauncher)
        ensures
            r.wf(),
            r.model().len() == 0,
            r.typed_name().len() == 0,
    {
        ESLauncher { install_name: String::new(), instances: Vec::new() }
    }

    /// The instances, in order, for display or saving.
    pub fn instances(&self) -> (r: &Vec<Instance>)
        ensures
            r@ == self.model(),
    {
        &self.instances
    }

    /// The position of the instance at `path`, if there is one.
    pub fn position(&self, path: &str) -> (r: Option<usize>)
        ensures
            match r {
                Some(i) => i < self.model().len() && self.model()[i as int].path@ == path@,
                None => !has_path(self.model(), path@),
            },
    {
        let target = String::from_str(path);
        let mut i: usize = 0;
        while i < self.instances.len()
            invariant
                i <= self.instances@.len(),
                target@ == path@,
                forall|j: int| 0 <= j < i ==> (#[trigger] self.instances@[j]).path@ != path@,
            decreases self.instances@.len() - i,
        {
            if self.instances[i].path.eq(&target) {
                return Some(i);
            }
            i = i + 1;
        }
        None
    }

    /// The application's window title.
    pub fn title(&self) -> (r: String)
        ensures
            r@ == "ESLauncher2"@,
    {
        String::from_str("ESLauncher2")
    }

    /// The name typed for the next installation.
    pub fn install_name(&self) -> (r: &String)
        ensures
            r@ == self.typed_name(),
    {
        &self.install_name
    }

    /// Routes a command to the instance at `path`; a command for a path
    /// that is not registered does nothing.
    pub fn dispatch(&mut self, path: &str, message: InstanceMessage) -> (r: Option<Operation>)
        requires
            old(self).wf(),
        ensures
            final(self).wf(),
            final(self).typed_name() == old(self).typed_name(),
            !has_path(old(self).model(), path@) ==> final(self).model() == old(self).model()
                && r is None,
            has_path(old(self).model(), path@) ==> {
                let i = index_of(old(self).model(), path@);
                &&& final(self).model().len() == old(self).model().len()
                &&& forall|j: int|
                    0 <= j < old(self).model().len() && j != i ==> final(self).model()[j] == old(
                        self,
                    ).model()[j]
                &&& update_post(old(self).model()[i], message@, final(self).model()[i], r)
            },
    {
        match self.position(path) {
            None => None,
            Some(i) => {
                proof {
                    lemma_index_of_unique(self.instances@, i as int);
                }
                let mut inst = self.instances.remove(i);
                let r = inst.update(message);
                self.instances.insert(i, inst);
                proof {
                    assert forall|a: int, b: int|
                        0 <= a < self.instances@.len() && 0 <= b < self.instances@.len() && a
                            != b implies (#[trigger] self.instances@[a]).path@ != (
                    #[trigger] self.instances@[b]).path@ by {
                        assert(a != i ==> self.instances@[a] == old(self).instances@[a]);
                        assert(b != i ==> self.instances@[b] == old(self).instances@[b]);
                    }
                }
                r
            },
        }
    }

    /// Records that an update of the instance at `path` finished: the
    /// updated identity is taken over when it kept the path, and the
    /// instance is `Ready` again whatever the outcome.
    pub fn finish_update(&mut self, path: &str, result: Option<InstanceRecord>)
        requires
            old(self).wf(),
        ensures
            final(self).wf(),
            final(self).typed_name() == old(self).typed_name(),
            !has_path(old(self).model(), path@) ==> final(self).model() == old(self).model(),
            has_path(old(self).model(), path@) ==> {
                let i = index_of(old(self).model(), path@);
                &&& final(self).model().len() == old(self).model().len()
                &&& forall|j: int|
                    0 <= j < old(self).model().len() && j != i ==> final(self).model()[j] == old(
                        self,
                    ).model()[j]
                &&& final(self).model()[i].state@ is Ready
                &&& final(self).model()[i].identity() == match result {
                    Some(rec) => if rec.path@ == path@ {
                        rec
                    } else {
                        old(self).model()[i].identity()
                    },
                    None => old(self).model()[i].identity(),
                }
            },
    {
        match self.position(path) {
            None => {},
            Some(i) => {
                proof {
                    lemma_index_of_unique(self.instances@, i as int);
                }
                let mut inst = self.instances.remove(i);
                match result {
                    Some(rec) => {
                        if rec.path.eq(&String::from_str(path)) {
                            inst = Instance::from_record(rec);
                        } else {
                            inst.state = crate::instance::InstanceState::Ready;
                        }
                    },
                    None => {
                        inst.state = crate::instance::InstanceState::Ready;
                    },
                }
                self.instances.insert(i, inst);
                proof {
                    assert forall|a: int, b: int|
                        0 <= a < self.instances@.len() && 0 <= b < self.instances@.len() && a
                            != b implies (#[trigger] self.instances@[a]).path@ != (
                    #[trigger] self.instances@[b]).path@ by {
                        assert(a != i ==> self.instances@[a] == old(self).instances@[a]);
                        assert(b != i ==> self.instances@[b] == old(self).instances@[b]);
                    }
                }
            },
        }
    }

    /// Drops the instance at `path` from the registry, if it is there.
    pub fn remove_instance(&mut self, path: &str) -> (r: bool)
        requires
            old(self).wf(),
        ensures
            final(self).wf(),
            final(self).typed_name() == old(self).typed_name(),
            r == has_path(old(self).model(), path@),
            r ==> final(self).model() == old(self).model().remove(
                index_of(old(self).model(), path@),
            ),
            !r ==> final(self).model() == old(self).model(),
    {
        match self.position(path) {
            None => false,
            Some(i) => {
                proof {
                    lemma_index_of_unique(self.instances@, i as int);
                }
                self.instances.remove(i);
                proof {
                    assert forall|a: int, b: int|
                        0 <= a < self.instances@.len() && 0 <= b < self.instances@.len() && a
                            != b implies (#[trigger] self.instances@[a]).path@ != (
                    #[trigger] self.instances@[b]).path@ by {
                        let oa = if a < i { a } else { a + 1 };
                        let ob = if b < i { b } else { b + 1 };
                        assert(self.instances@[a] == old(self).instances@[oa]);
                        assert(self.instances@[b] == old(self).instances@[ob]);
                    }
                }
                true
            },
        }
    }

    /// Asks for a new instance under the typed name in the instances
    /// directory. Nothing is asked when the directory is unknown, the name
    /// is empty or holds a separator, or an instance already has that path.
    pub fn start_installation(&self, instances_dir: Option<String>) -> (r: Option<Operation>)
        ensures
            match instances_dir {
                Some(d) => if valid_install_name(self.typed_name()) && !has_path(
                    self.model(),
                    path_join(d@, self.typed_name()),
                ) {
                    r matches Some(Operation::Install { destination, name, appimage }) && appimage && destination@
                        == path_join(d@, self.typed_name()) && name@ == self.typed_name()
                } else {
                    r is None
                },
                None => r is None,
            },
    {
        match instances_dir {
            None => None,
            Some(dir) => {
                if self.install_name.unicode_len() == 0 || contains_char(
                    self.install_name.as_str(),
                    '/',
                ) {
                    return None;
                }
                let destination = join(dir.as_str(), self.install_name.as_str());
                match self.position(destination.as_str()) {
                    Some(_) => None,
                    None => Some(
                        Operation::Install { destination, name: self.install_name.clone(), appimage: true },
                    ),
                }
            },
        }
    }

    /// Applies one command and returns the background work to schedule, if
    /// any. `instances_dir` is where new instances are installed.
    pub fn update(&mut self, message: Message, instances_dir: Option<String>) -> (r: Option<
        Operation,
    >)
        requires
            old(self).wf(),
        ensures
            final(self).wf(),
            match message {
                Message::NameChanged(n) => final(self).typed_name() == n@ && final(self).model()
                    == old(self).model() && r is None,
                Message::StartInstallation => final(self).typed_name() == old(self).typed_name()
                    && final(self).model() == old(self).model() && match instances_dir {
                    Some(d) => if valid_install_name(old(self).typed_name()) && !has_path(
                        old(self).model(),
                        path_join(d@, old(self).typed_name()),
                    ) {
                        r matches Some(Operation::Install { destination, name, appimage }) && appimage && destination@
                            == path_join(d@, old(self).typed_name()) && name@ == old(
                            self,
                        ).typed_name()
                    } else {
                        r is None
                    },
                    None => r is None,
                },
                Message::InstanceMessage(path, m) => {
                    &&& final(self).typed_name() == old(self).typed_name()
                    &&& !has_path(old(self).model(), path@) ==> final(self).model() == old(
                        self,
                    ).model() && r is None
                    &&& has_path(old(self).model(), path@) ==> {
                        let i = index_of(old(self).model(), path@);
                        &&& final(self).model().len() == old(self).model().len()
                        &&& forall|j: int|
                            0 <= j < old(self).model().len() && j != i ==> final(self).model()[j]
                                == old(self).model()[j]
                        &&& update_post(old(self).model()[i], m@, final(self).model()[i], r)
                    }
                },
                Message::Installed(res) => {
                    &&& final(self).typed_name() == old(self).typed_name()
                    &&& r is None
                    &&& match res {
                        Some(rec) => if has_path(old(self).model(), rec.path@) {
                            final(self).model() == old(self).model()
                        } else {
                            final(self).model().len() == old(self).model().len() + 1
                                && final(self).model().drop_last() == old(self).model()
                                && final(self).model().last().identity() == rec
                                && final(self).model().last().state@ is Ready
                        },
                        None => final(self).model() == old(self).model(),
                    }
                },
                Message::Updated(path, res) => {
                    &&& final(self).typed_name() == old(self).typed_name()
                    &&& r is None
                    &&& !has_path(old(self).model(), path@) ==> final(self).model() == old(
                        self,
                    ).model()
                    &&& has_path(old(self).model(), path@) ==> {
                        let i = index_of(old(self).model(), path@);
                        &&& final(self).model().len() == old(self).model().len()
                        &&& forall|j: int|
                            0 <= j < old(self).model().len() && j != i ==> final(self).model()[j]
                                == old(self).model()[j]
                        &&& final(self).model()[i].state@ is Ready
                        &&& final(self).model()[i].identity() == match res {
                            Some(rec) => if rec.path@ == path@ {
                                rec
                            } else {
                                old(self).model()[i].identity()
                            },
                            None => old(self).model()[i].identity(),
                        }
                    }
                },
                Message::Deleted(res) => {
                    &&& final(self).typed_name() == old(self).typed_name()
                    &&& r is None
                    &&& match res {
                        Some(p) => if has_path(old(self).model(), p@) {
                            final(self).model() == old(self).model().remove(
                                index_of(old(self).model(), p@),
                            )
                        } else {
                            final(self).model() == old(self).model()
                        },
                        None => final(self).model() == old(self).model(),
                    }
                },
            },
    {
        match message {
            Message::NameChanged(n) => {
                self.install_name = n;
                None
            },
            Message::StartInstallation => self.start_installation(instances_dir),
            Message::InstanceMessage(path, m) => self.dispatch(path.as_str(), m),
            Message::Installed(res) => {
                match res {
                    Some(rec) => {
                        let added = self.add_instance(Instance::from_record(rec));
                        proof {
                            if added {
                                assert(self.model().drop_last() =~= old(self).model());
                            }
                        }
                    },
                    None => {},
                }
                None
            },
            Message::Updated(path, res) => {
                self.finish_update(path.as_str(), res);
                None
            },
            Message::Deleted(res) => {
                match res {
                    Some(p) => {
                        self.remove_instance(p.as_str());
                    },
                    None => {},
                }
                None
            },
        }
    }

    /// Adds an instance unless one with its path is already registered.
    pub fn add_instance(&mut self, instance: Instance) -> (r: bool)
        requires
            old(self).wf(),
        ensures
            final(self).wf(),
            final(self).typed_name() == old(self).typed_name(),
            r == !has_path(old(self).model(), instance.path@),
            r ==> final(self).model() == old(self).model().push(instance),
            !r ==> final(self).model() == old(self).model(),
    {
        match self.position(instance.path.as_str()) {
            Some(_) => false,
            None => {
                self.instances.push(instance);
                true
            },
        }
    }
}

} // verus!
