//! Which requests the service answers, and how.
use vstd::prelude::*;
use crate::hash::is_file_id;
use crate::text::{lemma_pieces_of_two_texts, lemma_plain_text_is_one_piece, pieces};

verus! {

/// The method of a request.
#[derive(Debug, Clone, Copy, PartialEq, Eq, Structural)]
pub enum Method {
    Get,
    Post,
}

/// What a request is answered with.
#[derive(Debug, Clone, Copy, PartialEq, Eq, Structural)]
pub enum Endpoint {
    Upload,
    FileById,
    File,
    Uploads,
    About,
    Home,
}

/// Requests with this method, whose path fits `glob`, go to `endpoint`. In a glob `:id`
/// stands for one component, under that name, and `*` for whatever follows.
#[derive(Debug, PartialEq)]
pub struct Route {
    pub method: Method,
    pub glob: String,
    pub endpoint: Endpoint,
}

/// A `Route` over texts.
#[verifier::ext_equal]
pub struct RouteView {
    pub method: Method,
    pub glob: Seq<char>,
    pub endpoint: Endpoint,
}

impl View for Route {
    type V = RouteView;

    open spec fn view(&self) -> RouteView {
        RouteView { method: self.method, glob: self.glob@, endpoint: self.endpoint }
    }
}

impl DeepView for Route {
    type V = RouteView;

    open spec fn deep_view(&self) -> RouteView {
        self@
    }
}

/// All routes, in the order in which they are set up.
pub open spec fn route_table() -> Seq<RouteView> {
    seq![
        RouteView { method: Method::Post, glob: "/"@, endpoint: Endpoint::Upload },
        RouteView { method: Method::Get, glob: "/:id"@, endpoint: Endpoint::FileById },
        RouteView { method: Method::Get, glob: "/:id/*"@, endpoint: Endpoint::File },
        RouteView { method: Method::Get, glob: "/uploads"@, endpoint: Endpoint::Uploads },
        RouteView { method: Method::Get, glob: "/about"@, endpoint: Endpoint::About },
        RouteView { method: Method::Get, glob: "/"@, endpoint: Endpoint::Home },
    ]
}

/// The pieces of a path have the form that the pieces of a glob describe: a piece that
/// starts with `:` stands for one component, a last piece that starts with `*` for whatever
/// follows, and neither for nothing; any other piece stands for itself.
pub open spec fn pieces_fit(glob: Seq<Seq<char>>, path: Seq<Seq<char>>) -> bool
    decreases glob.len(),
{
    if glob.len() == 0 || path.len() == 0 {
        glob.len() == path.len()
    } else if glob[0].len() > 0 && glob[0][0] == '*' {
        glob.len() == 1 && (path.len() > 1 || path[0].len() > 0)
    } else {
        &&& if glob[0].len() > 0 && glob[0][0] == ':' {
            path[0].len() > 0
        } else {
            path[0] == glob[0]
        }
        &&& pieces_fit(glob.drop_first(), path.drop_first())
    }
}

/// The piece of a path at the place of `:id` in a glob.
pub open spec fn id_piece(glob: Seq<Seq<char>>, path: Seq<Seq<char>>) -> Option<Seq<char>>
    decreases glob.len(),
{
    if glob.len() == 0 || path.len() == 0 {
        None
    } else if glob[0] == ":id"@ {
        Some(path[0])
    } else {
        id_piece(glob.drop_first(), path.drop_first())
    }
}

/// A path has the form that a glob describes.
pub open spec fn fits(glob: Seq<char>, path: Seq<char>) -> bool {
    pieces_fit(pieces(glob, seq!['/']), pieces(path, seq!['/']))
}

/// What `:id` stands for in a path that fits a glob.
pub open spec fn id_in(glob: Seq<char>, path: Seq<char>) -> Option<Seq<char>> {
    id_piece(pieces(glob, seq!['/']), pieces(path, seq!['/']))
}

/// The path of the link to a file.
pub open spec fn link_path(id: Seq<char>) -> Seq<char> {
    seq!['/'] + id
}

/// The path of the place of a file.
pub open spec fn place_path(id: Seq<char>, name: Seq<char>) -> Seq<char> {
    link_path(id) + seq!['/'] + name
}

fn route(method: Method, glob: &str, endpoint: Endpoint) -> (route: Route)
    ensures
        route@ == (RouteView { method, glob: glob@, endpoint }),
{
    Route { method, glob: glob.to_owned(), endpoint }
}

/// All routes, in the order in which they are set up.
pub fn new_flup_router() -> (routes: Vec<Route>)
    ensures
        routes.deep_view() == route_table(),
{
    let mut routes: Vec<Route> = Vec::new();
    routes.push(route(Method::Post, "/", Endpoint::Upload));
    routes.push(route(Method::Get, "/:id", Endpoint::FileById));
    routes.push(route(Method::Get, "/:id/*", Endpoint::File));
    routes.push(route(Method::Get, "/uploads", Endpoint::Uploads));
    routes.push(route(Method::Get, "/about", Endpoint::About));
    routes.push(route(Method::Get, "/", Endpoint::Home));
    routes
}

/// No two routes claim the same method and glob, and each endpoint has one route.
pub proof fn law_routes_do_not_clash(i: int, j: int)
    requires
        0 <= i < j < route_table().len(),
    ensures
        route_table()[i].method != route_table()[j].method || route_table()[i].glob
            != route_table()[j].glob,
        route_table()[i].endpoint != route_table()[j].endpoint,
{
    reveal_strlit("/");
    reveal_strlit("/:id");
    reveal_strlit("/:id/*");
    reveal_strlit("/uploads");
    reveal_strlit("/about");
    assert(route_table()[i].glob.len() != route_table()[j].glob.len() || i == 0 || (i == 2 && j
        == 4));
    assert("/:id/*"@[1] != "/about"@[1]);
}

/// The pieces of each glob.
proof fn lemma_pieces_of_globs()
    ensures
        pieces("/"@, seq!['/']) == seq![Seq::<char>::empty(), Seq::<char>::empty()],
        pieces("/:id"@, seq!['/']) == seq![Seq::empty(), ":id"@],
        pieces("/:id/*"@, seq!['/']) == seq![Seq::empty(), ":id"@, "*"@],
        pieces("/uploads"@, seq!['/']) == seq![Seq::empty(), "uploads"@],
        pieces("/about"@, seq!['/']) == seq![Seq::empty(), "about"@],
{
    reveal_strlit("/");
    reveal_strlit("/:id");
    reveal_strlit("/:id/*");
    reveal_strlit("/uploads");
    reveal_strlit("/about");
    reveal_strlit(":id");
    reveal_strlit("*");
    reveal_strlit("uploads");
    reveal_strlit("about");
    let none = Seq::<char>::empty();
    lemma_plain_text_is_one_piece(none, '/');
    lemma_plain_text_is_one_piece(":id"@, '/');
    lemma_plain_text_is_one_piece("*"@, '/');
    lemma_plain_text_is_one_piece("uploads"@, '/');
    lemma_plain_text_is_one_piece("about"@, '/');
    lemma_pieces_of_two_texts(none, '/', none);
    lemma_pieces_of_two_texts(none, '/', ":id"@);
    lemma_pieces_of_two_texts("/:id"@, '/', "*"@);
    lemma_pieces_of_two_texts(none, '/', "uploads"@);
    lemma_pieces_of_two_texts(none, '/', "about"@);
    assert("/"@ =~= none + seq!['/'] + none);
    assert("/:id"@ =~= none + seq!['/'] + ":id"@);
    assert("/:id/*"@ =~= "/:id"@ + seq!['/'] + "*"@);
    assert("/uploads"@ =~= none + seq!['/'] + "uploads"@);
    assert("/about"@ =~= none + seq!['/'] + "about"@);
}

/// The link to a file and the place of a file each fit one route, and with the id of that
/// file: no id is taken for a page of the service.
pub proof fn law_links_fit_their_route(id: Seq<char>, name: Seq<char>, i: int)
    requires
        is_file_id(id),
        name.len() > 0,
        !name.contains('/'),
        0 <= i < route_table().len(),
    ensures
        ({
            let route = route_table()[i];
            &&& fits(route.glob, link_path(id)) <==> route.endpoint == Endpoint::FileById
            &&& fits(route.glob, place_path(id, name)) <==> route.endpoint == Endpoint::File
            &&& route.endpoint == Endpoint::FileById ==> id_in(route.glob, link_path(id)) == Some(
                id,
            )
            &&& route.endpoint == Endpoint::File ==> id_in(route.glob, place_path(id, name))
                == Some(id)
        }),
{
    let none = Seq::<char>::empty();
    assert(!id.contains('/')) by {
        assert forall|k: int| 0 <= k < id.len() implies id[k] != '/' by {}
    }
    lemma_pieces_of_globs();
    reveal_strlit(":id");
    reveal_strlit("*");
    reveal_strlit("uploads");
    reveal_strlit("about");
    lemma_plain_text_is_one_piece(none, '/');
    lemma_plain_text_is_one_piece(id, '/');
    lemma_plain_text_is_one_piece(name, '/');
    lemma_pieces_of_two_texts(none, '/', id);
    lemma_pieces_of_two_texts(link_path(id), '/', name);
    assert(link_path(id) =~= none + seq!['/'] + id);
    assert(pieces(link_path(id), seq!['/']) =~= seq![none, id]);
    assert(pieces(place_path(id, name), seq!['/']) =~= seq![none, id, name]);
    reveal_with_fuel(pieces_fit, 4);
    reveal_with_fuel(id_piece, 4);
}

} // verus!
