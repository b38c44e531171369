use vstd::prelude::*;

verus! {

/// An opaque handle to a loaded client library, as the dynamic loader gave it.
#[derive(Clone, Copy, Debug, PartialEq, Eq, Structural)]
pub struct LibraryHandle {
    pub id: u64,
}

/// The two client libraries that a context can be built on.
#[derive(Clone, Copy, Debug, PartialEq, Eq, Structural)]
pub enum LibraryKind {
    Gl,
    Egl,
}

/// Which rendering backends this process can use: a snapshot taken once.
#[derive(Clone, Copy, Debug, PartialEq, Eq, Structural)]
pub struct GlenOrGlenda {
    pub glx: Option<LibraryHandle>,
    pub egl: Option<LibraryHandle>,
    /// A fact of the compiled target, not probed.
    pub platform_native: bool,
}

impl GlenOrGlenda {
    /// A snapshot from the outcome of loading each client library.
    pub fn new(glx: Option<LibraryHandle>, egl: Option<LibraryHandle>, platform_native: bool) -> (r: GlenOrGlenda)
        ensures
            r.glx == glx,
            r.egl == egl,
            r.platform_native == platform_native,
    {
        GlenOrGlenda { glx, egl, platform_native }
    }

    pub open spec fn has_backend(&self) -> bool {
        self.glx is Some || self.egl is Some
    }
}

/// The number of file names tried for each library.
pub const CANDIDATES_PER_LIBRARY: usize = 2;

/// The file names under which a library is looked for, in the order they are tried.
pub open spec fn candidate_name(kind: LibraryKind, attempt: nat) -> Seq<char> {
    match kind {
        LibraryKind::Gl => if attempt == 0 { "libGL.so.1"@ } else { "libGL.so"@ },
        LibraryKind::Egl => if attempt == 0 { "libEGL.so.1"@ } else { "libEGL.so"@ },
    }
}

pub fn library_name(kind: LibraryKind, attempt: usize) -> (r: &'static str)
    requires
        attempt < CANDIDATES_PER_LIBRARY,
    ensures
        r@ == candidate_name(kind, attempt as nat),
{
    match (kind, attempt) {
        (LibraryKind::Gl, 0) => "libGL.so.1",
        (LibraryKind::Gl, _) => "libGL.so",
        (LibraryKind::Egl, 0) => "libEGL.so.1",
        (LibraryKind::Egl, _) => "libEGL.so",
    }
}

/// What the probe asks its driver to do next.
#[derive(Clone, Copy, Debug)]
pub enum ProbeAction {
    /// Try to load the library of this kind under this file name.
    Load { kind: LibraryKind, name: &'static str },
    /// Every library was looked for: this is the snapshot.
    Done(GlenOrGlenda),
}

/// Looks for the GL client library, then the EGL one, each under its primary file name
/// and then its fallback name. A library that cannot be loaded is recorded as absent;
/// the probe itself never fails.
#[derive(Clone, Copy, Debug)]
pub struct LibraryProbe {
    pub kind: LibraryKind,
    pub attempt: usize,
    pub glx: Option<LibraryHandle>,
    pub egl: Option<LibraryHandle>,
    pub platform_native: bool,
    pub finished: bool,
}

/// The probe after the driver reports the outcome of the load it was asked for.
pub open spec fn probe_step(p: LibraryProbe, loaded: Option<LibraryHandle>) -> LibraryProbe {
    match loaded {
        Some(h) => match p.kind {
            LibraryKind::Gl => LibraryProbe { kind: LibraryKind::Egl, attempt: 0, glx: Some(h), ..p },
            LibraryKind::Egl => LibraryProbe { egl: Some(h), finished: true, ..p },
        },
        None => if p.attempt + 1 < CANDIDATES_PER_LIBRARY {
            LibraryProbe { attempt: (p.attempt + 1) as usize, ..p }
        } else {
            match p.kind {
                LibraryKind::Gl => LibraryProbe { kind: LibraryKind::Egl, attempt: 0, glx: None, ..p },
                LibraryKind::Egl => LibraryProbe { egl: None, finished: true, ..p },
            }
        },
    }
}

impl LibraryProbe {
    pub open spec fn wf(&self) -> bool {
        self.attempt < CANDIDATES_PER_LIBRARY
    }

    pub open spec fn snapshot(&self) -> GlenOrGlenda {
        GlenOrGlenda { glx: self.glx, egl: self.egl, platform_native: self.platform_native }
    }

    /// A probe that has tried nothing yet.
    pub fn new(platform_native: bool) -> (p: LibraryProbe)
        ensures
            p.wf(),
            !p.finished,
            p.kind == LibraryKind::Gl,
            p.attempt == 0,
            p.glx is None,
            p.egl is None,
            p.platform_native == platform_native,
    {
        LibraryProbe {
            kind: LibraryKind::Gl,
            attempt: 0,
            glx: None,
            egl: None,
            platform_native,
            finished: false,
        }
    }

    /// The next load to perform, or the snapshot once both libraries were looked for.
    pub fn next_action(&self) -> (a: ProbeAction)
        requires
            self.wf(),
        ensures
            self.finished ==> a == ProbeAction::Done(self.snapshot()),
            !self.finished ==> (a matches ProbeAction::Load { kind, name }
                && kind == self.kind && name@ == candidate_name(self.kind, self.attempt as nat)),
    {
        if self.finished {
            ProbeAction::Done(GlenOrGlenda { glx: self.glx, egl: self.egl, platform_native: self.platform_native })
        } else {
            ProbeAction::Load { kind: self.kind, name: library_name(self.kind, self.attempt) }
        }
    }

    /// Records the outcome of the load that `next_action` asked for.
    pub fn on_loaded(&mut self, loaded: Option<LibraryHandle>)
        requires
            old(self).wf(),
            !old(self).finished,
        ensures
            final(self).wf(),
            *final(self) == probe_step(*old(self), loaded),
    {
        match loaded {
            Some(h) => match self.kind {
                LibraryKind::Gl => {
                    self.glx = Some(h);
                    self.kind = LibraryKind::Egl;
                    self.attempt = 0;
                },
                LibraryKind::Egl => {
                    self.egl = Some(h);
                    self.finished = true;
                },
            },
            None => {
                if self.attempt + 1 < CANDIDATES_PER_LIBRARY {
                    self.attempt = self.attempt + 1;
                } else {
                    match self.kind {
                        LibraryKind::Gl => {
                            self.glx = None;
                            self.kind = LibraryKind::Egl;
                            self.attempt = 0;
                        },
                        LibraryKind::Egl => {
                            self.egl = None;
                            self.finished = true;
                        },
                    }
                }
            },
        }
    }
}

/// Holds the availability snapshot once it was computed, for the rest of the process.
#[derive(Clone, Copy, Debug)]
pub struct ProbeCache {
    pub snapshot: Option<GlenOrGlenda>,
}

/// The cache and the snapshot handed out after a request that brings a freshly computed one.
pub open spec fn cache_step(c: ProbeCache, fresh: GlenOrGlenda) -> (ProbeCache, GlenOrGlenda) {
    match c.snapshot {
        Some(s) => (c, s),
        None => (ProbeCache { snapshot: Some(fresh) }, fresh),
    }
}

impl ProbeCache {
    pub fn new() -> (c: ProbeCache)
        ensures
            c.snapshot is None,
    {
        ProbeCache { snapshot: None }
    }

    /// Whether the snapshot still has to be computed.
    pub fn is_empty(&self) -> (r: bool)
        ensures
            r == (self.snapshot is None),
    {
        self.snapshot.is_none()
    }

    /// The stored snapshot; `fresh` is stored and returned only when none was stored before.
    pub fn get_or_insert(&mut self, fresh: GlenOrGlenda) -> (r: GlenOrGlenda)
        ensures
            (*final(self), r) == cache_step(*old(self), fresh),
    {
        match self.snapshot {
            Some(s) => s,
            None => {
                self.snapshot = Some(fresh);
                fresh
            },
        }
    }
}

/// Two requests to the same cache hand out the same snapshot, whatever each one computed.
pub proof fn lemma_snapshot_memoized(c: ProbeCache, fresh1: GlenOrGlenda, fresh2: GlenOrGlenda)
    ensures
        cache_step(cache_step(c, fresh1).0, fresh2).1 == cache_step(c, fresh1).1,
        cache_step(cache_step(c, fresh1).0, fresh2).0 == cache_step(c, fresh1).0,
{
}

} // verus!
