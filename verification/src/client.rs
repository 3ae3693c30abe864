use crate::ident::Ident;
use crate::render::{
    append_bytes, seqs_view, opt_view, push_lit, render, render_spec, pairs_view, TemplateViolation,
};
use crate::url::{GraphUrl, Host};
use vstd::prelude::*;
use vstd::string::StringSliceAdditionalSpecFns;

verus! {

/// The HTTP method of the in-flight request.
#[derive(Clone, Copy, PartialEq, Eq, Structural, Debug)]
pub enum Method {
    Get,
    Post,
    Put,
    Patch,
    Delete,
}

impl Method {
    /// The wire name of the method.
    pub open spec fn name(self) -> Seq<char> {
        match self {
            Method::Get => "GET"@,
            Method::Post => "POST"@,
            Method::Put => "PUT"@,
            Method::Patch => "PATCH"@,
            Method::Delete => "DELETE"@,
        }
    }

    /// The wire name of the method, as handed to the transport.
    pub fn as_ref(&self) -> (r: &'static str)
        ensures
            r@ == self.name(),
    {
        match self {
            Method::Get => "GET",
            Method::Post => "POST",
            Method::Put => "PUT",
            Method::Patch => "PATCH",
            Method::Delete => "DELETE",
        }
    }
}

/// Last-wins lookup in an accumulated header list: a later setting of
/// the same name overwrites an earlier one.
pub open spec fn header_lookup(hs: Seq<(Seq<u8>, Seq<u8>)>, k: Seq<u8>) -> Option<Seq<u8>>
    decreases hs.len(),
{
    if hs.len() == 0 {
        None
    } else if hs.last().0 == k {
        Some(hs.last().1)
    } else {
        header_lookup(hs.drop_last(), k)
    }
}

/// Law: setting a header overwrites the effective value of that name
/// and no other.
pub proof fn lemma_header_overwrite(hs: Seq<(Seq<u8>, Seq<u8>)>, k: Seq<u8>, v: Seq<u8>, k2: Seq<u8>)
    ensures
        header_lookup(hs.push((k, v)), k) == Some(v),
        k2 != k ==> header_lookup(hs.push((k, v)), k2) == header_lookup(hs, k2),
{
    assert(hs.push((k, v)).drop_last() =~= hs);
}

/// The fixed key and segment of the group-lifecycle-policy scope.
pub open spec fn glp_key() -> Seq<u8> {
    "glp".spec_bytes()
}

pub open spec fn glp_segment() -> Seq<u8> {
    "groupLifecyclePolicies".spec_bytes()
}

/// The fixed keys and segments of the contacts scope.
pub open spec fn ct_key() -> Seq<u8> {
    "ct".spec_bytes()
}

pub open spec fn ct_segment() -> Seq<u8> {
    "contacts".spec_bytes()
}

pub open spec fn cf_key() -> Seq<u8> {
    "cf".spec_bytes()
}

pub open spec fn cf_segment() -> Seq<u8> {
    "contactfolders".spec_bytes()
}

/// Copies the bytes of a fixed path segment.
pub(crate) fn seg_bytes(s: &str) -> (r: Vec<u8>)
    ensures
        r@ == s.spec_bytes(),
{
    vstd::slice::slice_to_vec(s.as_bytes())
}

/// One client handle: the per-call-chain request state. Every call
/// chain owns its own value (a scoped sub-builder is a clone carrying
/// its own binding); state-accumulation steps mutate it in declared
/// order, and the transport reads it exactly once.
#[derive(Clone)]
pub struct Graph {
    /// Target of the next dispatch: host, resolved path, query.
    pub url: GraphUrl,
    /// The active identity scope.
    pub ident: Ident,
    /// The resource id bound to the active scope, if any.
    pub rid: Option<Vec<u8>>,
    /// Scope-local named variables for template resolution.
    pub vars: Vec<(Vec<u8>, Vec<u8>)>,
    /// Method of the in-flight request.
    pub method: Method,
    /// Accumulated headers; a later entry of the same name wins.
    pub headers: Vec<(Vec<u8>, Vec<u8>)>,
    /// Serialized body of the in-flight request, if any.
    pub body: Option<Vec<u8>>,
    /// Bearer token attached at dispatch, if one was set.
    pub token: Option<Vec<u8>>,
}

impl Graph {
    /// A fresh client on the stable host, scoped to the signed-in
    /// user, with the given access token.
    pub fn new(token: Vec<u8>) -> (r: Graph)
        ensures
            r.url.host == Host::V1,
            r.url.path@ == Seq::<u8>::empty(),
            r.url.query is None,
            r.ident == Ident::Me,
            r.rid is None,
            r.vars@.len() == 0,
            r.method == Method::Get,
            r.headers@.len() == 0,
            r.body is None,
            r.token == Some(token),
    {
        Graph {
            url: GraphUrl::new(Host::V1),
            ident: Ident::Me,
            rid: None,
            vars: Vec::new(),
            method: Method::Get,
            headers: Vec::new(),
            body: None,
            token: Some(token),
        }
    }

    /// Use the stable API surface. Only the host changes: paths
    /// already rendered, and all other state, stay as they are.
    pub fn v1(&mut self)
        ensures
            *final(self) == (Graph {
                url: (GraphUrl { host: Host::V1, ..old(self).url }),
                ..*old(self)
            }),
    {
        self.url.host = Host::V1;
    }

    /// Use the preview API surface. Only the host changes.
    pub fn beta(&mut self)
        ensures
            *final(self) == (Graph {
                url: (GraphUrl { host: Host::Beta, ..old(self).url }),
                ..*old(self)
            }),
    {
        self.url.host = Host::Beta;
    }

    /// Is the stable host active?
    pub fn is_v1(&self) -> (r: bool)
        ensures
            r == (self.url.host == Host::V1),
    {
        matches!(self.url.host, Host::V1)
    }

    /// Is the preview host active?
    pub fn is_beta(&self) -> (r: bool)
        ensures
            r == (self.url.host == Host::Beta),
    {
        matches!(self.url.host, Host::Beta)
    }

    /// The active identity scope.
    pub fn ident(&self) -> (r: Ident)
        ensures
            r == self.ident,
    {
        self.ident
    }

    /// Overwrites the access token used for requests.
    pub fn set_token(&mut self, token: Vec<u8>)
        ensures
            *final(self) == (Graph { token: Some(token), ..*old(self) }),
    {
        self.token = Some(token);
    }

    /// Selects a new identity scope. Any previously bound resource id
    /// and any scope-local variables are cleared: nothing leaks across
    /// scope changes.
    pub fn select(&mut self, ident: Ident)
        ensures
            *final(self) == (Graph {
                ident,
                rid: None,
                vars: final(self).vars,
                ..*old(self)
            }),
            final(self).vars@.len() == 0,
    {
        self.ident = ident;
        self.rid = None;
        self.vars = Vec::new();
    }

    /// Binds a resource id to the active scope.
    pub fn bind(&mut self, id: Vec<u8>)
        ensures
            *final(self) == (Graph { rid: Some(id), ..*old(self) }),
    {
        self.rid = Some(id);
    }

    /// Selects the signed-in user's scope; no resource id is bound.
    pub fn me(&mut self)
        ensures
            *final(self) == (Graph {
                ident: Ident::Me,
                rid: None,
                vars: final(self).vars,
                ..*old(self)
            }),
            final(self).vars@.len() == 0,
    {
        self.select(Ident::Me);
    }

    /// Selects the drives scope and binds `id`.
    pub fn drives(&mut self, id: Vec<u8>)
        ensures
            *final(self) == (Graph {
                ident: Ident::Drives,
                rid: Some(id),
                vars: final(self).vars,
                ..*old(self)
            }),
            final(self).vars@.len() == 0,
    {
        self.select(Ident::Drives);
        self.bind(id);
    }

    /// Selects the sites scope and binds `id`.
    pub fn sites(&mut self, id: Vec<u8>)
        ensures
            *final(self) == (Graph {
                ident: Ident::Sites,
                rid: Some(id),
                vars: final(self).vars,
                ..*old(self)
            }),
            final(self).vars@.len() == 0,
    {
        self.select(Ident::Sites);
        self.bind(id);
    }

    /// Selects the groups scope and binds `id`.
    pub fn groups(&mut self, id: Vec<u8>)
        ensures
            *final(self) == (Graph {
                ident: Ident::Groups,
                rid: Some(id),
                vars: final(self).vars,
                ..*old(self)
            }),
            final(self).vars@.len() == 0,
    {
        self.select(Ident::Groups);
        self.bind(id);
    }

    /// Selects the users scope and binds `id`.
    pub fn users(&mut self, id: Vec<u8>)
        ensures
            *final(self) == (Graph {
                ident: Ident::Users,
                rid: Some(id),
                vars: final(self).vars,
                ..*old(self)
            }),
            final(self).vars@.len() == 0,
    {
        self.select(Ident::Users);
        self.bind(id);
    }

    /// Scopes the client to the group-lifecycle-policy endpoints:
    /// binds `id` and fixes the shared `{{glp}}` path segment. The
    /// active identity is left as it is.
    pub fn group_lifecycle_policies(&mut self, id: Vec<u8>)
        ensures
            *final(self) == (Graph {
                rid: Some(id),
                vars: final(self).vars,
                ..*old(self)
            }),
            pairs_view(final(self).vars) == seq![(glp_key(), glp_segment())],
    {
        self.rid = Some(id);
        let mut vars: Vec<(Vec<u8>, Vec<u8>)> = Vec::new();
        vars.push((seg_bytes("glp"), seg_bytes("groupLifecyclePolicies")));
        self.vars = vars;
        proof {
            assert(pairs_view(final(self).vars) =~= seq![(glp_key(), glp_segment())]);
        }
    }

    /// Scopes the client to the contacts endpoints: fixes the shared
    /// `{{ct}}` and `{{cf}}` path segments. Binding and identity are
    /// left as they are.
    pub fn contacts(&mut self)
        ensures
            *final(self) == (Graph { vars: final(self).vars, ..*old(self) }),
            pairs_view(final(self).vars) == seq![
                (ct_key(), ct_segment()),
                (cf_key(), cf_segment()),
            ],
    {
        let mut vars: Vec<(Vec<u8>, Vec<u8>)> = Vec::new();
        vars.push((seg_bytes("ct"), seg_bytes("contacts")));
        vars.push((seg_bytes("cf"), seg_bytes("contactfolders")));
        self.vars = vars;
        proof {
            assert(pairs_view(final(self).vars) =~= seq![
                (ct_key(), ct_segment()),
                (cf_key(), cf_segment()),
            ]);
        }
    }

    /// Overwrites the method of the in-flight request.
    pub fn set_method(&mut self, method: Method)
        ensures
            *final(self) == (Graph { method, ..*old(self) }),
    {
        self.method = method;
    }

    /// Overwrites the serialized body of the in-flight request.
    pub fn set_body(&mut self, body: Vec<u8>)
        ensures
            *final(self) == (Graph { body: Some(body), ..*old(self) }),
    {
        self.body = Some(body);
    }

    /// Overwrites the query of the target URL.
    pub fn set_query(&mut self, query: Vec<u8>)
        ensures
            *final(self) == (Graph {
                url: (GraphUrl { query: Some(query), ..old(self).url }),
                ..*old(self)
            }),
    {
        self.url.query = Some(query);
    }

    /// Appends a header; an entry appended later overwrites the
    /// effective value of the same name (see [`header_lookup`]).
    pub fn header(&mut self, name: Vec<u8>, value: Vec<u8>)
        ensures
            *final(self) == (Graph { headers: final(self).headers, ..*old(self) }),
            final(self).headers@ == old(self).headers@.push((name, value)),
    {
        self.headers.push((name, value));
    }

    /// The effective value of header `name`: the last one appended.
    pub fn header_value<'a>(&'a self, name: &Vec<u8>) -> (r: Option<&'a Vec<u8>>)
        ensures
            match r {
                None => header_lookup(pairs_view(self.headers), name@) is None,
                Some(v) => header_lookup(pairs_view(self.headers), name@) == Some(v@),
            },
    {
        let ghost hs = pairs_view(self.headers);
        let mut j: usize = self.headers.len();
        proof {
            assert(hs.take(j as int) =~= hs);
        }
        while j > 0
            invariant
                j <= self.headers@.len(),
                hs == pairs_view(self.headers),
                header_lookup(hs, name@) == header_lookup(hs.take(j as int), name@),
            decreases j,
        {
            proof {
                assert(hs.take(j as int).last() == hs[j - 1]);
                assert(hs.take(j as int).drop_last() =~= hs.take(j - 1));
                assert(hs[j - 1] == (self.headers@[j - 1].0@, self.headers@[j - 1].1@));
            }
            if crate::render::bytes_eq(&self.headers[j - 1].0, name) {
                return Some(&self.headers[j - 1].1);
            }
            j -= 1;
        }
        None
    }

    /// Sets up the in-flight request of one named operation: the
    /// method and body are overwritten and the path template is
    /// resolved against the bound resource id, the positional `ids`,
    /// and the scope's variables. A template-contract violation is
    /// surfaced before dispatch and leaves the state unchanged; the
    /// host is never touched.
    pub fn prepare(
        &mut self,
        method: Method,
        template: &Vec<u8>,
        ids: &Vec<Vec<u8>>,
        body: Option<Vec<u8>>,
    ) -> (r: Result<(), TemplateViolation>)
        ensures
            match render_spec(template@, opt_view(old(self).rid), seqs_view(*ids),
                pairs_view(old(self).vars)) {
                Ok(o) => r is Ok && *final(self) == (Graph {
                    method,
                    body,
                    url: (GraphUrl { path: final(self).url.path, ..old(self).url }),
                    ..*old(self)
                }) && final(self).url.path@ == o,
                Err(e) => r == Err::<(), TemplateViolation>(e) && *final(self) == *old(self),
            },
    {
        match render(template, &self.rid, ids, &self.vars) {
            Err(e) => Err(e),
            Ok(path) => {
                self.method = method;
                self.body = body;
                self.url.path = path;
                Ok(())
            },
        }
    }

    /// Stages the activities-by-interval report of the bound site: a
    /// GET whose path embeds the report parameters in call syntax, with
    /// the end of the interval optional.
    pub fn activities_by_interval(
        &mut self,
        start: &Vec<u8>,
        end: &Option<Vec<u8>>,
        interval: &Vec<u8>,
    ) -> (r: Result<(), TemplateViolation>)
        ensures
            match render_spec(interval_template(start@, opt_view(*end), interval@),
                opt_view(old(self).rid), Seq::<Seq<u8>>::empty(), pairs_view(old(self).vars)) {
                Ok(o) => r is Ok && *final(self) == (Graph {
                    method: Method::Get,
                    body: None,
                    url: (GraphUrl { path: final(self).url.path, ..old(self).url }),
                    ..*old(self)
                }) && final(self).url.path@ == o,
                Err(e) => r == Err::<(), TemplateViolation>(e) && *final(self) == *old(self),
            },
    {
        let mut t: Vec<u8> = Vec::new();
        push_lit(&mut t, "sites/{{RID}}/getActivitiesByInterval(startDateTime='");
        let ghost a1 = "sites/{{RID}}/getActivitiesByInterval(startDateTime='".spec_bytes();
        append_bytes(&mut t, start);
        let ghost a2 = a1 + start@;
        proof {
            assert(t@ =~= a2);
        }
        match end {
            None => {},
            Some(e) => {
                push_lit(&mut t, "',endDateTime='");
                append_bytes(&mut t, e);
            },
        }
        let ghost a3 = match opt_view(*end) {
            None => a2,
            Some(e) => a2 + "',endDateTime='".spec_bytes() + e,
        };
        proof {
            assert(t@ =~= a3);
        }
        push_lit(&mut t, "',interval='");
        append_bytes(&mut t, interval);
        push_lit(&mut t, "')");
        proof {
            assert(t@ =~= interval_template(start@, opt_view(*end), interval@));
        }
        let ids: Vec<Vec<u8>> = Vec::new();
        proof {
            assert(seqs_view(ids) =~= Seq::<Seq<u8>>::empty());
        }
        self.prepare(Method::Get, &t, &ids, None)
    }
}

/// The path of the activities-by-interval report: the parameters stand
/// in the path itself, in call syntax; the end of the interval is
/// optional.
pub open spec fn interval_template(
    start: Seq<u8>,
    end: Option<Seq<u8>>,
    interval: Seq<u8>,
) -> Seq<u8> {
    let head = "sites/{{RID}}/getActivitiesByInterval(startDateTime='".spec_bytes() + start;
    let mid = match end {
        None => head,
        Some(e) => head + "',endDateTime='".spec_bytes() + e,
    };
    mid + "',interval='".spec_bytes() + interval + "')".spec_bytes()
}

} // verus!
