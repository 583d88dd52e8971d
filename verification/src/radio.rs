//! Internet radio stations.

use vstd::prelude::*;
use vstd::string::StringExecFns;

use crate::id::{id_chars, Id};
use crate::query::{IntoArg, Query};

verus! {

/// An internet radio station configured on the server.
#[allow(missing_docs)]
#[derive(Debug, Clone)]
pub struct RadioStation {
    pub id: Id,
    pub name: String,
    pub stream_url: String,
    pub homepage_url: Option<String>,
}

impl RadioStation {
    /// The station's identifier.
    pub fn id(&self) -> (r: Id)
        ensures
            r == self.id,
    {
        match &self.id {
            Id::Numeric(n) => Id::Numeric(*n),
            Id::String(s) => Id::String(s.clone()),
        }
    }

    /// The arguments that create a station: its name, stream address,
    /// and home page when it has one.
    pub fn create_args(name: &str, url: &str, homepage: Option<&str>) -> (q: Query)
        ensures
            q@ =~= seq![
                ("name"@, Some(name@)),
                ("streamUrl"@, Some(url@)),
                ("homepageUrl"@, homepage.arg_view()),
            ],
    {
        let mut q = Query::with("name", name);
        q.arg("streamUrl", url);
        q.arg("homepageUrl", homepage);
        q.build()
    }

    /// The arguments that update a station to this record's fields.
    pub fn update_args(&self) -> (q: Query)
        ensures
            q@ =~= seq![
                ("id"@, Some(id_chars(self.id))),
                ("streamUrl"@, Some(self.stream_url@)),
                ("name"@, Some(self.name@)),
                ("homepageUrl"@, match self.homepage_url {
                    Some(h) => Some(h@),
                    None => None,
                }),
            ],
    {
        let mut q = Query::with("id", self.id());
        q.arg("streamUrl", self.stream_url.as_str());
        q.arg("name", self.name.as_str());
        let hp: Option<&str> = match &self.homepage_url {
            Some(h) => Some(h.as_str()),
            None => None,
        };
        q.arg("homepageUrl", hp);
        q.build()
    }

    /// The argument that deletes a station: its identifier.
    pub fn delete_args(&self) -> (q: Query)
        ensures
            q@ =~= seq![("id"@, Some(id_chars(self.id)))],
    {
        Query::with("id", self.id())
    }
}

} // verus!
