//! Uploads and fetches in a world where the database runs its commands, the disk gives
//! back what was written, and nothing outside of the library fails.
use vstd::prelude::*;
use vstd::utf8::encode_utf8;
use crate::db::{CommandView, FileInfoView, LAST_LISTED, files_key, public_files_key};
use crate::fetch::{fetch_ended, fetch_found, fetch_started, place_found};
use crate::filename::{
    MAX_EXTENSION_CHARS, MAX_NAME_CHARS, cut, law_short_names_keep_the_extension, short_name_of,
};
use crate::flup::ConfigView;
use crate::handler::{
    file_answer, file_url, media_extension, mime_of_extension, place_answer, place_is_valid,
    place_url, redirect, served, upload_answer, uploads_answer,
};
use crate::hash::{file_id_of, is_file_id, md5_hex_of, uploader_of};
use crate::request::{GetError, IdGetError, UploadError, UploadRequestView};
use crate::response::{BodyView, PageDataView, ResponseView, Status};
use crate::routes::{
    Endpoint, fits, id_in, law_links_fit_their_route, link_path, place_path, route_table,
};
use crate::store::{
    Store, after_all, count_reply, empty_store, info_of, info_reply, law_added_file_is_found,
    law_listed_files_have_info, law_listing_is_bounded, law_listing_shows_the_latest_first,
    law_no_more_public_files_than_files,
    law_no_public_file_is_double_at_first, law_other_files_stay, law_public_files_stay_single,
    list_at, listed, public_files_are_known, public_files_are_single, with_file,
};
use crate::text::{lemma_pieces_of_two_texts, lemma_plain_text_is_one_piece, pieces};
use crate::upload::{
    LookupView, Outcomes, client_ip, commands_needed, desc_is_too_long, file_is_taken, kept_desc,
    kept_name, lemma_kept_name_is_plain, lemma_upload_tail, upload_can_run, upload_checked,
    upload_described, upload_identified, upload_looked_up, upload_run,
    upload_started, upload_tail,
};
use crate::url::{hosts_fit, law_places_fit_where_the_url_does, parsed_url};

verus! {

/// The database and the files on the disk by id.
#[verifier::ext_equal]
pub struct World {
    pub store: Store,
    pub disk: Map<Seq<char>, Seq<u8>>,
}

/// The file on the disk under `file_id`.
pub open spec fn on_disk(world: World, file_id: Seq<char>) -> Option<Seq<u8>> {
    if world.disk.contains_key(file_id) {
        Some(world.disk[file_id])
    } else {
        None
    }
}

/// A file with this id is known.
pub open spec fn is_known(world: World, prefix: Seq<char>, file_id: Seq<char>) -> bool {
    info_of(world.store, prefix, file_id) is Some
}

/// The world after an upload of a file with the given content, and what the upload ended in.
pub open spec fn uploaded(
    world: World,
    config: ConfigView,
    prefix: Seq<char>,
    req: UploadRequestView,
    content: Seq<u8>,
) -> (World, Result<Seq<char>, UploadError>) {
    match upload_started(config, req) {
        Err(error) => (world, Err(error)),
        Ok(step) => match upload_checked(step, true) {
            Err(error) => (world, Err(error)),
            Ok(step) => match upload_identified(prefix, step, Ok(content)) {
                Err(error) => (world, Err(error)),
                Ok(step) => match upload_looked_up(
                    step,
                    info_reply(world.store, step.lookup) is Some,
                ) {
                    LookupView::Known(file_id) => (world, Ok(file_id)),
                    LookupView::New(step) => {
                        let disk = world.disk.insert(step.file_id, step.data);
                        match upload_described(prefix, step, true) {
                            Err(error) => (World { store: world.store, disk }, Err(error)),
                            Ok(step) => (
                                World { store: after_all(world.store, step.commands), disk },
                                upload_tail(step, step.commands.len()),
                            ),
                        }
                    },
                },
            },
        },
    }
}

/// What a request for the file `file_id` ends in.
pub open spec fn fetched(world: World, prefix: Seq<char>, file_id: Seq<char>) -> Result<
    (FileInfoView, Seq<u8>),
    GetError,
> {
    let step = fetch_started(prefix, file_id);
    match fetch_found(step, info_reply(world.store, step.lookup)) {
        Err(error) => Err(error),
        Ok(step) => fetch_ended(step, on_disk(world, step.file_id)),
    }
}

/// What a request for the place of the file `file_id` ends in.
pub open spec fn placed(world: World, prefix: Seq<char>, file_id: Seq<char>) -> Result<
    (Seq<char>, FileInfoView),
    IdGetError,
> {
    let step = fetch_started(prefix, file_id);
    place_found(step, info_reply(world.store, step.lookup))
}

/// What is kept of the file that a request brings.
pub open spec fn info_kept_for(config: ConfigView, req: UploadRequestView, content: Seq<u8>) -> FileInfoView {
    FileInfoView {
        name: kept_name(req.post->0.file->0.filename),
        desc: kept_desc(req.post->0.desc),
        file_id: file_id_of(content),
        uploader: uploader_of(config.salt, client_ip(config, req)),
    }
}

/// Every known file is on the disk, and its info carries its id and a short name that can
/// stand in a path.
pub open spec fn known_files_are_kept(world: World, prefix: Seq<char>) -> bool {
    forall|id: Seq<char>| #[trigger]
        is_known(world, prefix, id) ==> {
            &&& world.disk.contains_key(id)
            &&& info_of(world.store, prefix, id)->0.file_id == id
            &&& 0 < info_of(world.store, prefix, id)->0.name.len() <= MAX_NAME_CHARS
            &&& !info_of(world.store, prefix, id)->0.name.contains('/')
        }
}

/// What comes of the things that an upload has done outside in this world.
pub open spec fn outcomes_in(
    world: World,
    prefix: Seq<char>,
    req: UploadRequestView,
    content: Seq<u8>,
) -> Outcomes {
    Outcomes {
        ip_stored: true,
        content: Ok(content),
        known: is_known(world, prefix, file_id_of(content)),
        written: true,
        sent: commands_needed(req),
    }
}

/// The request can be uploaded in this world.
pub open spec fn can_upload(
    world: World,
    config: ConfigView,
    prefix: Seq<char>,
    req: UploadRequestView,
    content: Seq<u8>,
) -> bool {
    upload_can_run(config, req, outcomes_in(world, prefix, req, content))
}

/// What an upload comes to, written out.
proof fn lemma_uploaded(
    world: World,
    config: ConfigView,
    prefix: Seq<char>,
    req: UploadRequestView,
    content: Seq<u8>,
)
    ensures
        ({
            let (now, result) = uploaded(world, config, prefix, req, content);
            let id = file_id_of(content);
            if !file_is_taken(req) {
                now == world && result is Err
            } else if is_known(world, prefix, id) {
                now == world && result == Ok::<_, UploadError>(id)
            } else if desc_is_too_long(req.post->0.desc) {
                &&& now.store == world.store
                &&& now.disk == world.disk.insert(id, content)
                &&& result == Err::<Seq<char>, _>(UploadError::DescTooLong)
            } else {
                &&& now.store == with_file(
                    world.store,
                    prefix,
                    id,
                    info_kept_for(config, req, content),
                    req.post->0.public,
                )
                &&& now.disk == world.disk.insert(id, content)
                &&& result == Ok::<_, UploadError>(id)
            }
        }),
{
    if file_is_taken(req) {
        let step = upload_checked(upload_started(config, req)->Ok_0, true)->Ok_0;
        let step = upload_identified(prefix, step, Ok(content))->Ok_0;
        let step = upload_looked_up(step, false)->New_0;
        let step = upload_described(prefix, step, true);
        if step is Ok {
            lemma_upload_tail(step->Ok_0, step->Ok_0.commands.len());
        }
    }
}

/// A new file that was uploaded is served from then on: its id leads to its place, and a
/// request for it gives back its content and what was said of it.
pub proof fn law_uploaded_file_is_served(
    world: World,
    config: ConfigView,
    prefix: Seq<char>,
    req: UploadRequestView,
    content: Seq<u8>,
)
    requires
        can_upload(world, config, prefix, req, content),
        uploaded(world, config, prefix, req, content).1 is Ok,
        !is_known(world, prefix, file_id_of(content)),
    ensures
        ({
            let (now, result) = uploaded(world, config, prefix, req, content);
            let info = info_kept_for(config, req, content);
            &&& result->Ok_0 == file_id_of(content)
            &&& fetched(now, prefix, result->Ok_0) == Ok::<_, GetError>((info, content))
            &&& placed(now, prefix, result->Ok_0) == Ok::<_, IdGetError>((result->Ok_0, info))
        }),
{
    lemma_uploaded(world, config, prefix, req, content);
    law_added_file_is_found(
        world.store,
        prefix,
        file_id_of(content),
        info_kept_for(config, req, content),
        req.post->0.public,
    );
}

/// A new file that was uploaded under a name is answered with its content, as the
/// media type of the extension that its name has, cut to its limit.
pub proof fn law_uploaded_file_is_answered_with_its_type(
    world: World,
    config: ConfigView,
    prefix: Seq<char>,
    req: UploadRequestView,
    content: Seq<u8>,
    filename: Seq<char>,
)
    requires
        can_upload(world, config, prefix, req, content),
        uploaded(world, config, prefix, req, content).1 is Ok,
        !is_known(world, prefix, file_id_of(content)),
        req.post->0.file->0.filename == Some(filename),
        filename.len() != 0,
    ensures
        file_answer(
            fetched(
                uploaded(world, config, prefix, req, content).0,
                prefix,
                file_id_of(content),
            ),
        ) == served(
            mime_of_extension(cut(media_extension(filename), MAX_EXTENSION_CHARS as nat)),
            content,
        ),
{
    law_uploaded_file_is_served(world, config, prefix, req, content);
    law_short_names_keep_the_extension(filename);
}

/// An upload of a file whose id is known changes nothing and gives that id.
pub proof fn law_known_upload_changes_nothing(
    world: World,
    config: ConfigView,
    prefix: Seq<char>,
    req: UploadRequestView,
    content: Seq<u8>,
)
    requires
        can_upload(world, config, prefix, req, content),
        file_is_taken(req),
        is_known(world, prefix, file_id_of(content)),
    ensures
        uploaded(world, config, prefix, req, content) == (
            world,
            Ok::<_, UploadError>(file_id_of(content)),
        ),
{
}

/// Uploading the same content once more, by whatever request that brings a file within the
/// limits, gives the same id and changes nothing.
pub proof fn law_upload_twice_is_upload_once(
    world: World,
    config: ConfigView,
    prefix: Seq<char>,
    req: UploadRequestView,
    again: UploadRequestView,
    content: Seq<u8>,
)
    requires
        can_upload(world, config, prefix, req, content),
        uploaded(world, config, prefix, req, content).1 is Ok,
        file_is_taken(again),
        can_upload(
            uploaded(world, config, prefix, req, content).0,
            config,
            prefix,
            again,
            content,
        ),
    ensures
        ({
            let once = uploaded(world, config, prefix, req, content);
            uploaded(once.0, config, prefix, again, content) == once
        }),
{
    lemma_uploaded(world, config, prefix, req, content);
    if !is_known(world, prefix, file_id_of(content)) {
        law_uploaded_file_is_served(world, config, prefix, req, content);
    }
}

/// An upload, taken or refused, changes nothing of what other ids lead to.
pub proof fn law_uploads_leave_other_files_alone(
    world: World,
    config: ConfigView,
    prefix: Seq<char>,
    req: UploadRequestView,
    content: Seq<u8>,
    other: Seq<char>,
)
    requires
        can_upload(world, config, prefix, req, content),
        other != file_id_of(content),
    ensures
        ({
            let now = uploaded(world, config, prefix, req, content).0;
            &&& fetched(now, prefix, other) == fetched(world, prefix, other)
            &&& placed(now, prefix, other) == placed(world, prefix, other)
        }),
{
    lemma_uploaded(world, config, prefix, req, content);
    law_other_files_stay(
        world.store,
        prefix,
        file_id_of(content),
        info_kept_for(config, req, content),
        req.post->0.public,
        other,
    );
}

/// An upload that was refused changes nothing in the database and nothing of what any id
/// leads to.
pub proof fn law_refused_upload_is_not_kept(
    world: World,
    config: ConfigView,
    prefix: Seq<char>,
    req: UploadRequestView,
    content: Seq<u8>,
    file_id: Seq<char>,
)
    requires
        can_upload(world, config, prefix, req, content),
        uploaded(world, config, prefix, req, content).1 is Err,
    ensures
        ({
            let now = uploaded(world, config, prefix, req, content).0;
            &&& now.store == world.store
            &&& fetched(now, prefix, file_id) == fetched(world, prefix, file_id)
            &&& placed(now, prefix, file_id) == placed(world, prefix, file_id)
        }),
{
    lemma_uploaded(world, config, prefix, req, content);
}

/// A new file that was uploaded as public is listed in front of what was listed before; no
/// other upload changes the listing.
pub proof fn law_public_upload_is_listed_first(
    world: World,
    config: ConfigView,
    prefix: Seq<char>,
    req: UploadRequestView,
    content: Seq<u8>,
)
    requires
        can_upload(world, config, prefix, req, content),
    ensures
        ({
            let (now, result) = uploaded(world, config, prefix, req, content);
            let id = file_id_of(content);
            let before = listed(world.store, prefix);
            if result is Ok && !is_known(world, prefix, id) && req.post->0.public {
                listed(now.store, prefix) == seq![id] + if before.len() <= LAST_LISTED {
                    before
                } else {
                    before.drop_last()
                }
            } else {
                listed(now.store, prefix) == before
            }
        }),
{
    lemma_uploaded(world, config, prefix, req, content);
    law_listing_shows_the_latest_first(
        world.store,
        prefix,
        file_id_of(content),
        info_kept_for(config, req, content),
        req.post->0.public,
    );
}

/// In a world without files every known file is on the disk.
pub proof fn law_no_file_is_lost_at_first(prefix: Seq<char>)
    ensures
        known_files_are_kept(World { store: empty_store(), disk: Map::empty() }, prefix),
{
}

/// Where every known file is on the disk under the id in its info, every upload keeps it so,
/// and no request for a known file finds the disk without it.
pub proof fn law_known_files_stay_kept(
    world: World,
    config: ConfigView,
    prefix: Seq<char>,
    req: UploadRequestView,
    content: Seq<u8>,
    file_id: Seq<char>,
)
    requires
        can_upload(world, config, prefix, req, content),
        known_files_are_kept(world, prefix),
    ensures
        known_files_are_kept(uploaded(world, config, prefix, req, content).0, prefix),
        fetched(world, prefix, file_id) != Err::<(FileInfoView, Seq<u8>), _>(
            GetError::FileNotFound,
        ),
{
    let now = uploaded(world, config, prefix, req, content).0;
    lemma_uploaded(world, config, prefix, req, content);
    assert(is_known(world, prefix, file_id) ==> world.disk.contains_key(file_id));
    assert forall|id: Seq<char>| #[trigger] is_known(now, prefix, id) implies {
        &&& now.disk.contains_key(id)
        &&& info_of(now.store, prefix, id)->0.file_id == id
        &&& 0 < info_of(now.store, prefix, id)->0.name.len() <= MAX_NAME_CHARS
        &&& !info_of(now.store, prefix, id)->0.name.contains('/')
    } by {
        let info = info_kept_for(config, req, content);
        if is_known(world, prefix, id) {
            assert(world.disk.contains_key(id));
        }
        if id == file_id_of(content) {
            law_added_file_is_found(world.store, prefix, id, info, req.post->0.public);
            if !is_known(world, prefix, id) && file_is_taken(req) {
                lemma_kept_name_is_plain(req.post->0.file->0.filename);
            }
        } else {
            law_other_files_stay(
                world.store,
                prefix,
                file_id_of(content),
                info,
                req.post->0.public,
                id,
            );
        }
    }
}

/// The link to a file and its place, written out.
proof fn lemma_link_and_place(config: ConfigView, id: Seq<char>, name: Seq<char>)
    requires
        is_file_id(id),
    ensures
        file_url(config, id) == config.url + link_path(id),
        place_url(config, id, name) == config.url + place_path(id, name),
        place_url(config, id, name) == config.url + link_path(id) + "/"@ + name,
        pieces(config.url + link_path(id), seq!['/']).last() == id,
        hosts_fit(config.url) && place_url(config, id, name).len() <= u32::MAX && name.len()
            <= MAX_NAME_CHARS && !name.contains('/') ==> hosts_fit(place_url(config, id, name)),
{
    reveal_strlit("/");
    let link = config.url + link_path(id);
    assert(file_url(config, id) =~= link);
    assert(link + "/"@ + name =~= config.url + place_path(id, name));
    assert(!id.contains('/')) by {
        assert forall|k: int| 0 <= k < id.len() implies id[k] != '/' by {}
    }
    lemma_plain_text_is_one_piece(id, '/');
    lemma_pieces_of_two_texts(config.url, '/', id);
    assert(link =~= config.url + seq!['/'] + id);
    assert(place_url(config, id, name) =~= config.url + seq!['/'] + id + seq!['/'] + name);
    if hosts_fit(config.url) && place_url(config, id, name).len() <= u32::MAX && name.len()
        <= MAX_NAME_CHARS && !name.contains('/') {
        law_places_fit_where_the_url_does(config.url, id, name);
    }
}

/// A file that was uploaded, now or before, is found and is on the disk.
proof fn lemma_upload_is_found(
    world: World,
    config: ConfigView,
    prefix: Seq<char>,
    req: UploadRequestView,
    content: Seq<u8>,
)
    requires
        can_upload(world, config, prefix, req, content),
        known_files_are_kept(world, prefix),
        uploaded(world, config, prefix, req, content).1 is Ok,
    ensures
        ({
            let (now, result) = uploaded(world, config, prefix, req, content);
            let id = file_id_of(content);
            let info = info_of(now.store, prefix, id)->0;
            &&& result == Ok::<_, UploadError>(id)
            &&& placed(now, prefix, id) == Ok::<_, IdGetError>((id, info))
            &&& fetched(now, prefix, id) matches Ok(file) && file.0 == info
            &&& 0 < info.name.len() <= MAX_NAME_CHARS
            &&& !info.name.contains('/')
        }),
{
    let now = uploaded(world, config, prefix, req, content).0;
    let id = file_id_of(content);
    lemma_uploaded(world, config, prefix, req, content);
    law_added_file_is_found(
        world.store,
        prefix,
        id,
        info_kept_for(config, req, content),
        req.post->0.public,
    );
    law_known_files_stay_kept(world, config, prefix, req, content, id);
    assert(is_known(now, prefix, id));
}

/// The link that an upload is answered with leads to the file. Its last piece is the id of
/// the file, and a request for that id is answered with the place of the file, which is the
/// link, a `/` and the name of the file, as far as that is a URL. It can be counted where the
/// URL of the service can. Below that URL the place has the form of the one route that serves
/// files, with the same id, and the file is there.
pub proof fn law_upload_link_leads_to_the_file(
    world: World,
    config: ConfigView,
    prefix: Seq<char>,
    req: UploadRequestView,
    content: Seq<u8>,
    i: int,
)
    requires
        can_upload(world, config, prefix, req, content),
        known_files_are_kept(world, prefix),
        uploaded(world, config, prefix, req, content).1 is Ok,
        is_file_id(file_id_of(content)),
        0 <= i < route_table().len(),
    ensures
        ({
            let (now, result) = uploaded(world, config, prefix, req, content);
            let id = file_id_of(content);
            let info = info_of(now.store, prefix, id)->0;
            let link = config.url + link_path(id);
            let place = link + "/"@ + info.name;
            let route = route_table()[i];
            &&& upload_answer(config, result) == (ResponseView {
                status: Status::Success,
                body: BodyView::Text(link),
            })
            &&& pieces(link, seq!['/']).last() == id
            &&& placed(now, prefix, id) == Ok::<_, IdGetError>((id, info))
            &&& place_is_valid(config, placed(now, prefix, id)) <==> hosts_fit(place)
                && parsed_url(place) is Some
            &&& hosts_fit(config.url) && place.len() <= u32::MAX ==> hosts_fit(place)
            &&& place_is_valid(config, placed(now, prefix, id)) ==> place_answer(
                config,
                placed(now, prefix, id),
            ) == redirect(parsed_url(place)->0)
            &&& place == config.url + place_path(id, info.name)
            &&& fits(route.glob, place_path(id, info.name)) <==> route.endpoint == Endpoint::File
            &&& route.endpoint == Endpoint::File ==> id_in(
                route.glob,
                place_path(id, info.name),
            ) == Some(id)
            &&& fetched(now, prefix, id) matches Ok(file) && file.0 == info
        }),
{
    let now = uploaded(world, config, prefix, req, content).0;
    let id = file_id_of(content);
    lemma_upload_is_found(world, config, prefix, req, content);
    let name = info_of(now.store, prefix, id)->0.name;
    lemma_link_and_place(config, id, name);
    law_links_fit_their_route(id, name, i);
}

/// The world after uploads, one after the other, into a world without files.
pub open spec fn after_uploads(
    config: ConfigView,
    prefix: Seq<char>,
    uploads: Seq<(UploadRequestView, Seq<u8>)>,
) -> World
    decreases uploads.len(),
{
    if uploads.len() == 0 {
        World { store: empty_store(), disk: Map::empty() }
    } else {
        uploaded(
            after_uploads(config, prefix, uploads.drop_last()),
            config,
            prefix,
            uploads.last().0,
            uploads.last().1,
        ).0
    }
}

/// Each of these uploads can be made after those before it.
pub open spec fn can_upload_all(
    config: ConfigView,
    prefix: Seq<char>,
    uploads: Seq<(UploadRequestView, Seq<u8>)>,
) -> bool
    decreases uploads.len(),
{
    uploads.len() == 0 || {
        &&& can_upload_all(config, prefix, uploads.drop_last())
        &&& can_upload(
            after_uploads(config, prefix, uploads.drop_last()),
            config,
            prefix,
            uploads.last().0,
            uploads.last().1,
        )
    }
}

/// Where no public file is listed twice, every upload keeps it so.
pub proof fn law_uploads_keep_public_files_single(
    world: World,
    config: ConfigView,
    prefix: Seq<char>,
    req: UploadRequestView,
    content: Seq<u8>,
)
    requires
        can_upload(world, config, prefix, req, content),
        public_files_are_single(world.store, prefix),
    ensures
        public_files_are_single(uploaded(world, config, prefix, req, content).0.store, prefix),
{
    lemma_uploaded(world, config, prefix, req, content);
    if !is_known(world, prefix, file_id_of(content)) {
        law_public_files_stay_single(
            world.store,
            prefix,
            file_id_of(content),
            info_kept_for(config, req, content),
            req.post->0.public,
        );
    }
}

/// After uploads alone no public file is listed twice, there are no more public files than
/// files, every listed file is known, and every known file is on the disk.
pub proof fn law_what_holds_after_uploads(
    config: ConfigView,
    prefix: Seq<char>,
    uploads: Seq<(UploadRequestView, Seq<u8>)>,
)
    requires
        can_upload_all(config, prefix, uploads),
    ensures
        ({
            let world = after_uploads(config, prefix, uploads);
            &&& list_at(world.store, public_files_key(prefix)).no_duplicates()
            &&& count_reply(world.store, CommandView::LLen { key: public_files_key(prefix) })
                <= count_reply(world.store, CommandView::HLen { key: files_key(prefix) })
            &&& public_files_are_single(world.store, prefix)
            &&& known_files_are_kept(world, prefix)
        }),
    decreases uploads.len(),
{
    if uploads.len() == 0 {
        law_no_public_file_is_double_at_first(prefix);
        law_no_file_is_lost_at_first(prefix);
    } else {
        let (req, content) = uploads.last();
        let before = after_uploads(config, prefix, uploads.drop_last());
        law_what_holds_after_uploads(config, prefix, uploads.drop_last());
        law_uploads_keep_public_files_single(before, config, prefix, req, content);
        law_known_files_stay_kept(before, config, prefix, req, content, file_id_of(content));
    }
    law_no_more_public_files_than_files(after_uploads(config, prefix, uploads).store, prefix);
}

/// In this world an upload ends as its course says when nothing outside fails.
pub proof fn law_nothing_fails_in_this_world(
    world: World,
    config: ConfigView,
    prefix: Seq<char>,
    req: UploadRequestView,
    content: Seq<u8>,
)
    requires
        can_upload(world, config, prefix, req, content),
    ensures
        uploaded(world, config, prefix, req, content).1 == upload_run(
            config,
            prefix,
            req,
            outcomes_in(world, prefix, req, content),
        ),
{
}

/// A new file that was uploaded is given back with everything that came with it: all of its
/// content, its description as it was sent, the id that its content has, and the tag of the
/// address that it came from; and the answer to a request for it holds all of its content.
pub proof fn law_uploads_come_back_as_they_were_sent(
    world: World,
    config: ConfigView,
    prefix: Seq<char>,
    req: UploadRequestView,
    content: Seq<u8>,
)
    requires
        can_upload(world, config, prefix, req, content),
        uploaded(world, config, prefix, req, content).1 is Ok,
        !is_known(world, prefix, file_id_of(content)),
    ensures
        ({
            let (now, result) = uploaded(world, config, prefix, req, content);
            let post = req.post->0;
            let found = fetched(now, prefix, result->Ok_0);
            let answer = file_answer(found);
            &&& result->Ok_0 == md5_hex_of(content).take(4)
            &&& found matches Ok(file) && {
                &&& file.1 == content
                &&& file.0.file_id == md5_hex_of(content).take(4)
                &&& file.0.uploader == md5_hex_of(
                    encode_utf8(client_ip(config, req)) + encode_utf8(config.salt),
                )
                &&& post.desc matches Some(desc) ==> file.0.desc == desc
                &&& post.desc is None ==> file.0.desc == "(none)"@
                &&& match post.file->0.filename {
                    Some(filename) => if filename.len() > 0 {
                        short_name_of(filename) == Some(file.0.name)
                    } else {
                        file.0.name == "file"@
                    },
                    None => file.0.name == "file"@,
                }
            }
            &&& answer.status == Status::Success
            &&& answer.body matches BodyView::File { mime, content: served } && served == content
        }),
{
    lemma_uploaded(world, config, prefix, req, content);
    law_uploaded_file_is_served(world, config, prefix, req, content);
}

/// The infos that a listing of public files shows.
pub open spec fn shown(world: World, prefix: Seq<char>) -> Seq<FileInfoView> {
    Seq::new(
        listed(world.store, prefix).len(),
        |i: int| info_of(world.store, prefix, listed(world.store, prefix)[i])->0,
    )
}

/// After an upload of a new public file the page that lists public uploads shows that file
/// first, and behind it, in the same order, what it showed before, as far as there is room.
pub proof fn law_page_shows_the_latest_upload_first(
    world: World,
    config: ConfigView,
    prefix: Seq<char>,
    req: UploadRequestView,
    content: Seq<u8>,
    i: int,
)
    requires
        can_upload(world, config, prefix, req, content),
        public_files_are_known(world.store, prefix),
        uploaded(world, config, prefix, req, content).1 is Ok,
        !is_known(world, prefix, file_id_of(content)),
        req.post->0.public,
    ensures
        ({
            let now = uploaded(world, config, prefix, req, content).0;
            let before = shown(world, prefix);
            uploads_answer(Some(shown(now, prefix))).body matches BodyView::Page { template, data }
                && (data matches PageDataView::Uploads { uploads } && {
                &&& uploads.len() == if before.len() <= 20 {
                    before.len() + 1
                } else {
                    21
                }
                &&& uploads[0].file_id == md5_hex_of(content).take(4)
                &&& req.post->0.desc matches Some(desc) ==> uploads[0].desc == desc
                &&& fetched(now, prefix, file_id_of(content)) == Ok::<_, GetError>(
                    (uploads[0], content),
                )
                &&& 0 < i < uploads.len() ==> uploads[i] == before[i - 1]
            })
        }),
{
    let now = uploaded(world, config, prefix, req, content).0;
    let id = file_id_of(content);
    let info = info_kept_for(config, req, content);
    lemma_uploaded(world, config, prefix, req, content);
    law_uploaded_file_is_served(world, config, prefix, req, content);
    law_public_upload_is_listed_first(world, config, prefix, req, content);
    law_listing_is_bounded(world.store, prefix);
    let before = listed(world.store, prefix);
    if 0 < i < listed(now.store, prefix).len() {
        law_listed_files_have_info(world.store, prefix, i - 1);
        assert(listed(now.store, prefix)[i] == before[i - 1]);
        assert(before[i - 1] != id);
        law_other_files_stay(world.store, prefix, id, info, true, before[i - 1]);
    }
}

} // verus!
