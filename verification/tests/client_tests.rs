use graph_rs::client::{Graph, Method};
use graph_rs::ident::Ident;
use graph_rs::url::Host;

fn v(s: &str) -> Vec<u8> {
    s.as_bytes().to_vec()
}

#[test]
fn new_client_defaults() {
    let client = Graph::new(v("TOKEN"));
    assert!(client.is_v1());
    assert!(!client.is_beta());
    assert_eq!(client.ident(), Ident::Me);
    assert!(client.rid.is_none());
    assert_eq!(client.token, Some(v("TOKEN")));
    assert_eq!(Ident::default(), Ident::Me);
}

#[test]
fn select_clears_binding() {
    let mut client = Graph::new(v("TOKEN"));
    client.users(v("u1"));
    assert_eq!(client.rid, Some(v("u1")));
    client.select(Ident::Groups);
    assert_eq!(client.ident(), Ident::Groups);
    assert!(client.rid.is_none());
}

#[test]
fn me_after_bound_scope_clears_binding() {
    let mut client = Graph::new(v("TOKEN"));
    client.drives(v("d1"));
    client.me();
    assert_eq!(client.ident(), Ident::Me);
    assert!(client.rid.is_none());
}

#[test]
fn host_persists_until_switched() {
    let mut client = Graph::new(v("TOKEN"));
    client.sites(v("s1"));
    client.prepare(Method::Get, &v("sites/{{RID}}"), &Vec::new(), None).unwrap();
    assert!(client.is_v1());
    let rendered = client.url.path.clone();
    client.prepare(Method::Get, &v("sites/{{RID}}/analytics"), &Vec::new(), None).unwrap();
    assert!(client.is_v1());
    client.beta();
    assert!(client.is_beta());
    // switching hosts never rewrites a path rendered earlier
    assert_eq!(rendered, v("sites/s1"));
    assert_eq!(client.url.path, v("sites/s1/analytics"));
    client.v1();
    assert!(client.is_v1());
}

#[test]
fn base_str_of_each_host() {
    assert_eq!(Host::V1.base_str(), "https://graph.microsoft.com/v1.0");
    assert_eq!(Host::Beta.base_str(), "https://graph.microsoft.com/beta");
}

#[test]
fn method_wire_names() {
    assert_eq!(Method::Get.as_ref(), "GET");
    assert_eq!(Method::Post.as_ref(), "POST");
    assert_eq!(Method::Put.as_ref(), "PUT");
    assert_eq!(Method::Patch.as_ref(), "PATCH");
    assert_eq!(Method::Delete.as_ref(), "DELETE");
}

#[test]
fn ident_segments() {
    assert_eq!(Ident::Me.as_ref(), "me");
    assert_eq!(Ident::Drives.as_ref(), "drives");
    assert_eq!(Ident::Sites.as_ref(), "sites");
    assert_eq!(Ident::Groups.as_ref(), "groups");
    assert_eq!(Ident::Users.as_ref(), "users");
}

#[test]
fn header_last_setting_wins() {
    let mut client = Graph::new(v("TOKEN"));
    client.header(v("Accept"), v("text/plain"));
    client.header(v("Accept"), v("application/json"));
    assert_eq!(client.header_value(&v("Accept")), Some(&v("application/json")));
    assert_eq!(client.header_value(&v("Missing")), None);
}

#[test]
fn set_token_overwrites() {
    let mut client = Graph::new(v("OLD"));
    client.set_token(v("NEW"));
    assert_eq!(client.token, Some(v("NEW")));
}

#[test]
fn prepare_renders_against_binding_and_ids() {
    let mut client = Graph::new(v("TOKEN"));
    client.sites(v("s1"));
    client.prepare(
        Method::Post,
        &v("sites/{{RID}}/lists/{{id}}/items"),
        &vec![v("l1")],
        Some(v("{\"name\":\"n\"}")),
    ).unwrap();
    assert_eq!(client.url.path, v("sites/s1/lists/l1/items"));
    assert_eq!(client.method, Method::Post);
    assert_eq!(client.body, Some(v("{\"name\":\"n\"}")));
}

#[test]
fn prepare_violation_leaves_state_unchanged() {
    let mut client = Graph::new(v("TOKEN"));
    client.sites(v("s1"));
    client.prepare(Method::Get, &v("sites/{{RID}}"), &Vec::new(), None).unwrap();
    client.me();
    let r = client.prepare(Method::Delete, &v("drive/{{RID}}"), &Vec::new(), None);
    assert!(r.is_err());
    assert_eq!(client.url.path, v("sites/s1"));
    assert_eq!(client.method, Method::Get);
    assert!(client.body.is_none());
}

#[test]
fn group_lifecycle_policies_scope() {
    let mut client = Graph::new(v("TOKEN"));
    client.group_lifecycle_policies(v("g1"));
    client.prepare(Method::Get, &v("{{glp}}/{{RID}}"), &Vec::new(), None).unwrap();
    assert_eq!(client.url.path, v("groupLifecyclePolicies/g1"));
}

#[test]
fn contacts_scope() {
    let mut client = Graph::new(v("TOKEN"));
    client.contacts();
    client.prepare(Method::Get, &v("{{ct}}/delta"), &Vec::new(), None).unwrap();
    assert_eq!(client.url.path, v("contacts/delta"));
    client.prepare(Method::Get, &v("{{cf}}/{{id}}/childFolders"), &vec![v("f1")], None).unwrap();
    assert_eq!(client.url.path, v("contactfolders/f1/childFolders"));
}

#[test]
fn select_clears_scope_variables() {
    let mut client = Graph::new(v("TOKEN"));
    client.contacts();
    client.select(Ident::Users);
    let r = client.prepare(Method::Get, &v("{{ct}}/delta"), &Vec::new(), None);
    assert!(r.is_err());
}

#[test]
fn activities_by_interval_with_end() {
    let mut client = Graph::new(v("TOKEN"));
    client.sites(v("s1"));
    client.activities_by_interval(&v("2020-01-01"), &Some(v("2020-01-31")), &v("day")).unwrap();
    assert_eq!(client.method, Method::Get);
    assert_eq!(
        client.url.path,
        v("sites/s1/getActivitiesByInterval(startDateTime='2020-01-01',endDateTime='2020-01-31',interval='day')")
    );
}

#[test]
fn activities_by_interval_without_end() {
    let mut client = Graph::new(v("TOKEN"));
    client.sites(v("s1"));
    client.activities_by_interval(&v("2020-01-01"), &None, &v("week")).unwrap();
    assert_eq!(
        client.url.path,
        v("sites/s1/getActivitiesByInterval(startDateTime='2020-01-01',interval='week')")
    );
}

#[test]
fn activities_by_interval_needs_a_binding() {
    let mut client = Graph::new(v("TOKEN"));
    client.me();
    let r = client.activities_by_interval(&v("2020-01-01"), &None, &v("day"));
    assert_eq!(r, Err(graph_rs::render::TemplateViolation::RidUnbound));
}

#[test]
fn scoped_clones_carry_distinct_bindings() {
    let mut base = Graph::new(v("TOKEN"));
    base.select(Ident::Sites);
    let mut one = base.clone();
    one.bind(v("s1"));
    let mut two = base.clone();
    two.bind(v("s2"));
    one.prepare(Method::Get, &v("sites/{{RID}}"), &Vec::new(), None).unwrap();
    two.prepare(Method::Get, &v("sites/{{RID}}"), &Vec::new(), None).unwrap();
    assert_eq!(one.url.path, v("sites/s1"));
    assert_eq!(two.url.path, v("sites/s2"));
    assert!(base.rid.is_none());
}
