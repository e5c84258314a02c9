//! The data structure for an orchestrator configuration file.
//!
//! Only the fields the routing core consults are modelled. The file itself
//! is read and decoded outside the core; the core receives the structured
//! configuration as a plain value and only ever lists and matches the names
//! of the services it declares. Service entries keep the order in which the
//! loader handed them over, and the loader hands over each name once.

use vstd::prelude::*;

verus! {

/// The mathematical value of a [`Schema`]: where it came from, its declared
/// format version, and the names of its services in order.
#[verifier::ext_equal]
pub ghost struct SchemaView {
    pub source: Option<Seq<char>>,
    pub version: Seq<char>,
    pub names: Seq<Seq<char>>,
}

/// A parsed orchestrator configuration: its source location, its format
/// version, and its services keyed by name.
#[derive(Clone, Debug)]
pub struct Schema {
    /// The location the configuration was loaded from.
    pub source: Option<String>,
    /// The declared format version of the file.
    pub version: String,
    /// The declared services, keyed by name, in the order the loader
    /// handed them over.
    pub services: Vec<(String, Service)>,
}

impl View for Schema {
    type V = SchemaView;

    open spec fn view(&self) -> SchemaView {
        SchemaView {
            source: self.source.deep_view(),
            version: self.version@,
            names: Seq::new(self.services@.len(), |i: int| self.services@[i].0@),
        }
    }
}

impl Default for Schema {
    /// An empty configuration declaring the current format version.
    fn default() -> (r: Schema)
        ensures
            r@.source is None,
            r@.version == "3.8"@,
            r@.names == Seq::<Seq<char>>::empty(),
    {
        let r = Schema { source: None, version: String::from_str("3.8"), services: Vec::new() };
        proof {
            assert(r@.names =~= Seq::<Seq<char>>::empty());
        }
        r
    }
}

impl Schema {
    /// A configuration declares each service name at most once, as a
    /// name-keyed file demands.
    pub open spec fn wf(self) -> bool {
        forall|i: int, j: int|
            0 <= i < j < self@.names.len() ==> #[trigger] self@.names[i] != #[trigger] self@.names[j]
    }

    /// The source location, or a fixed note when none was recorded.
    pub fn get_source(&self) -> (r: String)
        ensures
            self@.source is Some ==> r@ == self@.source->0,
            self@.source is None ==> r@ == "No source set"@,
    {
        match &self.source {
            Some(x) => x.clone(),
            None => String::from_str("No source set"),
        }
    }

    /// The names of the declared services, in declaration order.
    pub fn list_service_names(&self) -> (r: Vec<String>)
        ensures
            r.deep_view() == self@.names,
    {
        let mut r: Vec<String> = Vec::new();
        let mut i: usize = 0;
        while i < self.services.len()
            invariant
                i <= self.services@.len(),
                r.deep_view() =~= self@.names.take(i as int),
            decreases self.services@.len() - i,
        {
            let ghost prev = r.deep_view();
            r.push(self.services[i].0.clone());
            proof {
                assert(r.deep_view() =~= prev.push(self.services@[i as int].0@));
                assert(self@.names.take(i as int + 1) =~= prev.push(self@.names[i as int]));
            }
            i = i + 1;
        }
        proof {
            assert(r.deep_view() =~= self@.names);
        }
        r
    }

    /// A copy of this configuration with the same value.
    pub fn duplicate(&self) -> (r: Schema)
        ensures
            r@ == self@,
    {
        let mut services: Vec<(String, Service)> = Vec::new();
        let mut i: usize = 0;
        while i < self.services.len()
            invariant
                i <= self.services@.len(),
                services@.len() == i,
                forall|j: int| 0 <= j < i ==> services@[j].0@ == self.services@[j].0@,
            decreases self.services@.len() - i,
        {
            let entry = &self.services[i];
            services.push((entry.0.clone(), entry.1.clone()));
            i = i + 1;
        }
        let r = Schema {
            source: crate::query::clone_opt_string(&self.source),
            version: self.version.clone(),
            services,
        };
        proof {
            assert(r@.names =~= self@.names);
            assert(r@ =~= self@);
        }
        r
    }
}

/// One declared service of the configuration.
#[derive(Clone, Debug)]
pub struct Service {
    pub build: Option<Build>,
    pub image: Option<String>,
    pub command: Option<Vec<String>>,
    pub depends_on: Option<Vec<String>>,
    pub ports: Option<Vec<Port>>,
    pub restart: Option<Restart>,
    pub volumes: Option<Vec<ServiceVolume>>,
}

/// How a service's image is built; no fields are consulted yet.
#[derive(Clone, Debug)]
pub struct Build {}

/// A declared port mapping: either short text form or an object.
#[derive(Clone, Debug)]
pub enum Port {
    Str(String),
    Obj(PortObj),
}

/// A port mapping in object form; no fields are consulted yet.
#[derive(Clone, Debug)]
pub struct PortObj {}

/// A service's restart policy.
#[derive(Clone, Copy, Debug, PartialEq, Eq, Structural)]
pub enum Restart {
    No,
    Always,
    OnFailure,
    UnlessStopped,
}

/// The kind of a declared volume.
#[derive(Clone, Copy, Debug, PartialEq, Eq, Structural)]
pub enum ServiceVolumeType {
    Volume,
    Bind,
    Tmpfs,
    Npipe,
}

impl Default for ServiceVolumeType {
    /// The kind a volume has when none is declared.
    fn default() -> (r: ServiceVolumeType)
        ensures
            r == ServiceVolumeType::Bind,
    {
        ServiceVolumeType::Bind
    }
}

/// The consistency requirement of a declared volume.
#[derive(Clone, Copy, Debug, PartialEq, Eq, Structural)]
pub enum ServiceVolumeConsistency {
    Consistent,
    Cached,
    Delegated,
}

/// The size of a tmpfs mount.
#[derive(Clone, Copy, Debug, PartialEq, Eq, Structural)]
pub struct ServiceVolumeTmpfs {
    pub size: i64,
}

/// One declared volume of a service.
#[derive(Clone, Debug)]
pub struct ServiceVolume {
    pub volume_type: ServiceVolumeType,
    pub source: Option<String>,
    pub target: Option<String>,
    pub read_only: Option<bool>,
    pub tmpfs: Option<ServiceVolumeTmpfs>,
    pub consistency: Option<ServiceVolumeConsistency>,
}

impl ServiceVolume {
    /// The volume a short-form declaration stands for: only the source is
    /// given, every other field takes its default.
    pub fn short_form(source: String) -> (r: ServiceVolume)
        ensures
            r.volume_type == ServiceVolumeType::Bind,
            r.source.deep_view() == Some(source@),
            r.target is None,
            r.read_only is None,
            r.tmpfs is None,
            r.consistency is None,
    {
        ServiceVolume {
            volume_type: ServiceVolumeType::Bind,
            source: Some(source),
            target: None,
            read_only: None,
            tmpfs: None,
            consistency: None,
        }
    }
}

} // verus!
