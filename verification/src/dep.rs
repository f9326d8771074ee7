//! One direct dependency as the listing reports it.

use vstd::prelude::*;

verus! {

/// The mathematical content of a [`DepKrate`].
pub struct DepView {
    /// The dependency's name.
    pub name: Seq<char>,
    /// The version that the project declares.
    pub version: Seq<char>,
    /// Where the dependency was resolved from, when the listing says so.
    pub from: Option<Seq<char>>,
}

impl DepView {
    /// A record has a name and a version.
    pub open spec fn well_formed(self) -> bool {
        self.name.len() > 0 && self.version.len() > 0
    }

    /// Whether the origin is a path of the local file system, which is one
    /// that begins with the path separator.
    pub open spec fn is_local(self) -> bool {
        match self.from {
            Some(origin) => origin.len() > 0 && origin[0] == '/',
            None => false,
        }
    }
}

/// A direct dependency: its name, its declared version and its origin.
#[derive(Debug)]
pub struct DepKrate {
    name: String,
    version: String,
    from: Option<String>,
}

impl View for DepKrate {
    type V = DepView;

    closed spec fn view(&self) -> DepView {
        DepView {
            name: self.name@,
            version: self.version@,
            from: match self.from {
                Some(origin) => Some(origin@),
                None => None,
            },
        }
    }
}

/// The view of an optional string.
pub open spec fn option_text(text: Option<String>) -> Option<Seq<char>> {
    match text {
        Some(t) => Some(t@),
        None => None,
    }
}

impl DepKrate {
    /// Makes a record, unless the name or the version is empty.
    pub fn new(name: String, version: String, from: Option<String>) -> (made: Option<DepKrate>)
        ensures
            made is Some <==> name@.len() > 0 && version@.len() > 0,
            made is Some ==> made.unwrap()@ == (DepView {
                name: name@,
                version: version@,
                from: option_text(from),
            }),
            made is Some ==> made.unwrap()@.well_formed(),
    {
        if name.as_str().is_empty() || version.as_str().is_empty() {
            None
        } else {
            Some(DepKrate { name, version, from })
        }
    }

    /// The dependency's name.
    pub fn name(&self) -> (name: &str)
        ensures
            name@ == self@.name,
    {
        self.name.as_str()
    }

    /// The declared version.
    pub fn version(&self) -> (version: &str)
        ensures
            version@ == self@.version,
    {
        self.version.as_str()
    }

    /// The origin, when the listing gave one.
    pub fn origin(&self) -> (origin: Option<&str>)
        ensures
            origin is Some <==> self@.from is Some,
            origin is Some ==> origin.unwrap()@ == self@.from.unwrap(),
    {
        match &self.from {
            Some(origin) => Some(origin.as_str()),
            None => None,
        }
    }

    /// Whether the dependency comes from the local file system.
    #[inline]
    pub fn is_local(&self) -> (local: bool)
        ensures
            local == self@.is_local(),
    {
        if let Some(f) = &self.from {
            let origin = f.as_str();
            return !origin.is_empty() && origin.get_char(0) == '/';
        }
        false
    }

}

impl Clone for DepKrate {
    fn clone(&self) -> (copy: DepKrate)
        ensures
            copy@ == self@,
    {
        DepKrate {
            name: self.name.clone(),
            version: self.version.clone(),
            from: match &self.from {
                Some(origin) => Some(origin.clone()),
                None => None,
            },
        }
    }
}

} // verus!
