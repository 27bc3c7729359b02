//! What the gateway does to a world that behaves.
//!
//! The steps of a request are carried out by the caller, against backends
//! that this crate never touches. To say what a whole request achieves, this
//! module describes backends that do what is asked of them: a directory, a
//! bucket and a table that keep what is written and give it back. Running
//! the steps of a request against that description shows what the caller can
//! rely on whenever its backends keep their word. Everything here is
//! specification and proof; nothing is compiled.

use crate::kinds::{ErrorKind, StorageTarget, STATUS_BAD_REQUEST, STATUS_NOT_FOUND};
use crate::name::{confined, joined, lemma_joined_injective};
use crate::provision::{CreateOutcomeView, ProbeOutcome};
use crate::reply::{
    content_reply, entry_missing_reply, invalid_encoding_reply, source_missing_reply,
    stored_reply, ReplyView,
};
use crate::transfer::{
    get_first, get_last, put_after_create, put_after_probe, put_after_source, put_first,
    put_last, put_to_backend, steps_left, FetchOutcomeView, RootsView, SourceOutcomeView,
    StepView, StoreOutcomeView,
};
use vstd::prelude::*;
use vstd::utf8::{
    decode_utf8, encode_utf8, encode_utf8_decode_utf8, encode_utf8_valid_utf8, valid_utf8,
};

verus! {

/// The intake directory and the three backends at one moment.
pub struct World {
    /// The intake files, by path.
    pub intake: Map<Seq<char>, Seq<u8>>,
    /// The files of the local store, by path.
    pub files: Map<Seq<char>, Seq<u8>>,
    /// The objects of the bucket, by key; `None` while there is no bucket.
    pub bucket: Option<Map<Seq<char>, Seq<u8>>>,
    /// The rows of the table as `(name, data)`, oldest first.
    pub rows: Seq<(Seq<char>, Seq<char>)>,
}

/// Whether row `i` of `rows` is named `name`.
pub open spec fn row_named(rows: Seq<(Seq<char>, Seq<char>)>, name: Seq<char>, i: int) -> bool {
    0 <= i < rows.len() && rows[i].0 == name
}

impl World {
    /// Reading the intake file at `path`.
    pub open spec fn read_source(self, path: Seq<char>) -> SourceOutcomeView {
        if self.intake.contains_key(path) {
            SourceOutcomeView::Read(self.intake[path])
        } else {
            SourceOutcomeView::Missing
        }
    }

    /// Looking for the bucket.
    pub open spec fn probe(self) -> ProbeOutcome {
        if self.bucket is Some {
            ProbeOutcome::Present
        } else {
            ProbeOutcome::Absent
        }
    }

    /// The world after an attempt to create the bucket.
    pub open spec fn with_bucket(self) -> World {
        if self.bucket is Some {
            self
        } else {
            World { bucket: Some(Map::empty()), ..self }
        }
    }

    /// How an attempt to create the bucket ends.
    pub open spec fn create_bucket(self) -> CreateOutcomeView {
        if self.bucket is Some {
            CreateOutcomeView::AlreadyExists
        } else {
            CreateOutcomeView::Created
        }
    }

    /// The world after a write of `content` to the file at `path`.
    pub open spec fn with_file(self, path: Seq<char>, content: Seq<char>) -> World {
        World { files: self.files.insert(path, encode_utf8(content)), ..self }
    }

    /// The world after an upload of `body` as the object `key`.
    pub open spec fn with_object(self, key: Seq<char>, body: Seq<char>) -> World {
        match self.bucket {
            Some(objects) => World {
                bucket: Some(objects.insert(key, encode_utf8(body))),
                ..self
            },
            None => self,
        }
    }

    /// How an upload ends: it needs the bucket.
    pub open spec fn put_object(self) -> StoreOutcomeView {
        if self.bucket is Some {
            StoreOutcomeView::Stored
        } else {
            StoreOutcomeView::Failed("NoSuchBucket"@)
        }
    }

    /// The world after the insertion of the row `(name, data)`.
    pub open spec fn with_row(self, name: Seq<char>, data: Seq<char>) -> World {
        World { rows: self.rows.push((name, data)), ..self }
    }

    /// Reading the stored file at `path`.
    pub open spec fn read_file(self, path: Seq<char>) -> FetchOutcomeView {
        if self.files.contains_key(path) {
            FetchOutcomeView::Found(self.files[path])
        } else {
            FetchOutcomeView::Missing
        }
    }

    /// Fetching the object `key`.
    pub open spec fn get_object(self, key: Seq<char>) -> FetchOutcomeView {
        match self.bucket {
            Some(objects) => if objects.contains_key(key) {
                FetchOutcomeView::Found(objects[key])
            } else {
                FetchOutcomeView::Missing
            },
            None => FetchOutcomeView::Missing,
        }
    }

    /// Selecting a row named `name`. Where several rows bear the name, which
    /// of them is returned is left open.
    pub open spec fn select_row(self, name: Seq<char>) -> FetchOutcomeView {
        if exists|i: int| row_named(self.rows, name, i) {
            let i = choose|i: int| row_named(self.rows, name, i);
            FetchOutcomeView::Found(encode_utf8(self.rows[i].1))
        } else {
            FetchOutcomeView::Missing
        }
    }

    /// Whether `target` holds an entry for `name`.
    pub open spec fn holds(self, target: StorageTarget, name: Seq<char>, roots: RootsView) -> bool {
        match target {
            StorageTarget::Local => confined(name) && self.files.contains_key(
                joined(roots.store, name),
            ),
            StorageTarget::Object => self.bucket is Some && self.bucket->0.contains_key(name),
            StorageTarget::Relational => exists|i: int| row_named(self.rows, name, i),
        }
    }
}

/// The world after `step` has been carried out, and the step that follows.
pub open spec fn carry_out(
    world: World,
    target: StorageTarget,
    step: StepView,
    roots: RootsView,
) -> (World, StepView) {
    match step {
        StepView::ReadSource { name, path } => (
            world,
            put_after_source(target, name, world.read_source(path), roots),
        ),
        StepView::WriteFile { name, path, content } => (
            world.with_file(path, content),
            StepView::Respond(put_last(target, name, StoreOutcomeView::Stored)),
        ),
        StepView::ProbeBucket { name, content } => (
            world,
            put_after_probe(name, content, world.probe()),
        ),
        StepView::CreateBucket { name, content } => (
            world.with_bucket(),
            put_after_create(name, content, world.create_bucket()),
        ),
        StepView::PutObject { key, body } => (
            world.with_object(key, body),
            StepView::Respond(put_last(target, key, world.put_object())),
        ),
        StepView::InsertRow { name, data } => (
            world.with_row(name, data),
            StepView::Respond(put_last(target, name, StoreOutcomeView::Stored)),
        ),
        StepView::ReadFile { name, path } => (
            world,
            StepView::Respond(get_last(target, name, world.read_file(path))),
        ),
        StepView::GetObject { key } => (
            world,
            StepView::Respond(get_last(target, key, world.get_object(key))),
        ),
        StepView::SelectRow { name } => (
            world,
            StepView::Respond(get_last(target, name, world.select_row(name))),
        ),
        StepView::Respond(reply) => (world, StepView::Respond(reply)),
    }
}

/// The world and the reply when the request whose next step is `step` has
/// run its course.
pub open spec fn run(world: World, target: StorageTarget, step: StepView, roots: RootsView) -> (
    World,
    ReplyView,
)
    decreases steps_left(step),
{
    match step {
        StepView::Respond(reply) => (world, reply),
        _ => {
            let (after, next) = carry_out(world, target, step, roots);
            run(after, target, next, roots)
        },
    }
}

/// The world and the reply after a write with the payload `payload`.
pub open spec fn serve_put(
    world: World,
    target: StorageTarget,
    payload: Seq<u8>,
    roots: RootsView,
) -> (World, ReplyView) {
    run(world, target, put_first(target, payload, roots), roots)
}

/// The world and the reply after `content` has been put to `target` under
/// `name`.
pub open spec fn store(
    world: World,
    target: StorageTarget,
    name: Seq<char>,
    content: Seq<char>,
    roots: RootsView,
) -> (World, ReplyView) {
    run(world, target, put_to_backend(target, name, content, roots), roots)
}

/// The world and the reply after a read of `name`.
pub open spec fn serve_get(
    world: World,
    target: StorageTarget,
    name: Seq<char>,
    roots: RootsView,
) -> (World, ReplyView) {
    run(world, target, get_first(target, name, roots), roots)
}

/// A payload that is not UTF-8 is answered with a bad request, and the world
/// is left as it was: no step is taken against any backend.
pub proof fn law_invalid_payload_changes_nothing(
    world: World,
    target: StorageTarget,
    payload: Seq<u8>,
    roots: RootsView,
)
    requires
        !valid_utf8(payload),
    ensures
        put_first(target, payload, roots) == StepView::Respond(invalid_encoding_reply(target)),
        serve_put(world, target, payload, roots) == (world, invalid_encoding_reply(target)),
        invalid_encoding_reply(target).status == STATUS_BAD_REQUEST,
        invalid_encoding_reply(target).error == Some(ErrorKind::InvalidEncoding),
{
    reveal_with_fuel(run, 2);
}

/// A write whose name has no intake file is answered with a bad request and
/// leaves the world as it was.
pub proof fn law_missing_source_changes_nothing(
    world: World,
    target: StorageTarget,
    payload: Seq<u8>,
    roots: RootsView,
)
    requires
        valid_utf8(payload),
        !world.intake.contains_key(joined(roots.intake, decode_utf8(payload))),
    ensures
        serve_put(world, target, payload, roots) == (world, source_missing_reply(target)),
        source_missing_reply(target).status == STATUS_BAD_REQUEST,
        source_missing_reply(target).error == Some(ErrorKind::NotFound),
{
    reveal_with_fuel(run, 3);
}

/// A read leaves the world as it was, whatever it finds.
pub proof fn law_reads_change_nothing(
    world: World,
    target: StorageTarget,
    name: Seq<char>,
    roots: RootsView,
)
    ensures
        serve_get(world, target, name, roots).0 == world,
{
    reveal_with_fuel(run, 3);
}

/// What was put to the local store or to the object store is what is got
/// from it: after `content` has been put under a name, whatever the backend
/// held before, a read of that name replies with `content`. The local store
/// takes confined names only.
pub proof fn law_round_trip(
    world: World,
    target: StorageTarget,
    name: Seq<char>,
    content: Seq<char>,
    roots: RootsView,
)
    requires
        target != StorageTarget::Relational,
        target == StorageTarget::Local ==> confined(name),
    ensures
        store(world, target, name, content, roots).1 == stored_reply(target, name),
        serve_get(store(world, target, name, content, roots).0, target, name, roots).1
            == content_reply(content),
{
    encode_utf8_valid_utf8(content);
    encode_utf8_decode_utf8(content);
    reveal_with_fuel(run, 4);
}

/// The table gives back what was put under a name that it did not hold
/// before. Under a name that it held already it gives back the data of one
/// of the rows of that name, not necessarily the latest.
pub proof fn law_first_row_reads_back(
    world: World,
    name: Seq<char>,
    content: Seq<char>,
    roots: RootsView,
)
    ensures
        ({
            let after = store(world, StorageTarget::Relational, name, content, roots).0;
            let reply = serve_get(after, StorageTarget::Relational, name, roots).1;
            &&& after.rows == world.rows.push((name, content))
            &&& exists|i: int| row_named(after.rows, name, i) && reply == content_reply(
                #[trigger] after.rows[i].1,
            )
            &&& !world.holds(StorageTarget::Relational, name, roots) ==> reply == content_reply(
                content,
            )
        }),
{
    reveal_with_fuel(run, 3);
    let after = store(world, StorageTarget::Relational, name, content, roots).0;
    assert(row_named(after.rows, name, after.rows.len() - 1));
    let i = choose|i: int| row_named(after.rows, name, i);
    encode_utf8_valid_utf8(after.rows[i].1);
    encode_utf8_decode_utf8(after.rows[i].1);
    if !world.holds(StorageTarget::Relational, name, roots) {
        if i < world.rows.len() {
            assert(row_named(world.rows, name, i));
        }
    }
}

/// A write succeeds whenever its name is confined and its intake file is
/// text, whether the destination existed before or not: it then puts the
/// content of that file under the name. In particular a second write to a
/// destination that the first one created does not fail for finding it
/// there.
pub proof fn law_put_succeeds(
    world: World,
    target: StorageTarget,
    name: Seq<char>,
    content: Seq<char>,
    roots: RootsView,
)
    requires
        confined(name),
        world.intake.contains_key(joined(roots.intake, name)),
        world.intake[joined(roots.intake, name)] == encode_utf8(content),
    ensures
        serve_put(world, target, encode_utf8(name), roots) == store(
            world,
            target,
            name,
            content,
            roots,
        ),
        serve_put(world, target, encode_utf8(name), roots).1 == stored_reply(target, name),
        serve_put(world, target, encode_utf8(name), roots).0.intake == world.intake,
        serve_put(world, target, encode_utf8(name), roots).0.holds(target, name, roots),
        serve_put(
            serve_put(world, target, encode_utf8(name), roots).0,
            target,
            encode_utf8(name),
            roots,
        ).1 == stored_reply(target, name),
{
    encode_utf8_valid_utf8(name);
    encode_utf8_decode_utf8(name);
    encode_utf8_valid_utf8(content);
    encode_utf8_decode_utf8(content);
    reveal_with_fuel(run, 6);
    let after = serve_put(world, target, encode_utf8(name), roots).0;
    if target == StorageTarget::Relational {
        assert(row_named(after.rows, name, after.rows.len() - 1));
    }
}

/// A read of a name that the backend does not hold is answered as not found,
/// never as a failed transfer, and changes nothing. The relational backend
/// answers with the status for what is absent.
pub proof fn law_absent_is_not_found(
    world: World,
    target: StorageTarget,
    name: Seq<char>,
    roots: RootsView,
)
    requires
        !world.holds(target, name, roots),
    ensures
        serve_get(world, target, name, roots) == (world, entry_missing_reply(target, name)),
        entry_missing_reply(target, name).error == Some(ErrorKind::NotFound),
        target == StorageTarget::Relational ==> entry_missing_reply(target, name).status
            == STATUS_NOT_FOUND,
{
    reveal_with_fuel(run, 3);
}

/// One write request: the backend it is directed at, and its payload.
pub struct Write {
    pub target: StorageTarget,
    pub payload: Seq<u8>,
}

impl Write {
    /// Whether this write is directed at `target` and names `name`.
    pub open spec fn concerns(self, target: StorageTarget, name: Seq<char>) -> bool {
        self.target == target && valid_utf8(self.payload) && decode_utf8(self.payload) == name
    }
}

/// The world after the writes of `writes`, carried out one after the other.
/// Reads need not be listed: by [`law_reads_change_nothing`] they leave the
/// world as it is.
pub open spec fn after_writes(world: World, writes: Seq<Write>, roots: RootsView) -> World
    decreases writes.len(),
{
    if writes.len() == 0 {
        world
    } else {
        serve_put(
            after_writes(world, writes.drop_last(), roots),
            writes.last().target,
            writes.last().payload,
            roots,
        ).0
    }
}

/// A write leaves everything as it was that it does not concern: what any
/// other backend holds, and what its own backend holds under any other
/// name. A name that it does not concern is held afterwards exactly if it
/// was held before, and a read of it is answered as before. The table alone
/// may answer a read of a name that several rows bear with another of them
/// once a row has been added.
pub proof fn law_write_keeps_the_rest(
    world: World,
    write: Write,
    target: StorageTarget,
    name: Seq<char>,
    roots: RootsView,
)
    requires
        !write.concerns(target, name),
    ensures
        serve_put(world, write.target, write.payload, roots).0.holds(target, name, roots)
            == world.holds(target, name, roots),
        !(write.target == StorageTarget::Relational && target == StorageTarget::Relational)
            ==> serve_get(
            serve_put(world, write.target, write.payload, roots).0,
            target,
            name,
            roots,
        ).1 == serve_get(world, target, name, roots).1,
{
    reveal_with_fuel(run, 6);
    let after = serve_put(world, write.target, write.payload, roots).0;
    if valid_utf8(write.payload) {
        let written = decode_utf8(write.payload);
        if confined(written) && confined(name) && joined(roots.store, written) == joined(
            roots.store,
            name,
        ) {
            lemma_joined_injective(roots.store, written, name);
        }
        if write.target == StorageTarget::Relational && target == StorageTarget::Relational {
            if after.holds(target, name, roots) {
                let i = choose|i: int| row_named(after.rows, name, i);
                assert(row_named(world.rows, name, i));
            }
            if world.holds(target, name, roots) {
                let i = choose|i: int| row_named(world.rows, name, i);
                assert(row_named(after.rows, name, i));
            }
        }
    }
}

/// A name that was never written is not found. If a backend holds nothing
/// under a name, then after any number of writes none of which concerns
/// that name on that backend it still holds nothing under it, and a read of
/// the name is answered as not found.
pub proof fn law_never_written_is_not_found(
    world: World,
    writes: Seq<Write>,
    target: StorageTarget,
    name: Seq<char>,
    roots: RootsView,
)
    requires
        !world.holds(target, name, roots),
        forall|i: int| 0 <= i < writes.len() ==> !(#[trigger] writes[i]).concerns(target, name),
    ensures
        !after_writes(world, writes, roots).holds(target, name, roots),
        serve_get(after_writes(world, writes, roots), target, name, roots).1
            == entry_missing_reply(target, name),
        entry_missing_reply(target, name).error == Some(ErrorKind::NotFound),
    decreases writes.len(),
{
    if writes.len() > 0 {
        let earlier = writes.drop_last();
        assert forall|i: int| 0 <= i < earlier.len() implies !(#[trigger] earlier[i]).concerns(
            target,
            name,
        ) by {
            assert(earlier[i] == writes[i]);
        }
        law_never_written_is_not_found(world, earlier, target, name, roots);
        law_write_keeps_the_rest(
            after_writes(world, earlier, roots),
            writes.last(),
            target,
            name,
            roots,
        );
    }
    law_absent_is_not_found(after_writes(world, writes, roots), target, name, roots);
}

/// The last write wins. What was put to the local store or to the object
/// store under a name is what a read of that name replies with for as long
/// as no later write concerns the name on that backend, whatever else is
/// written meanwhile.
pub proof fn law_last_write_wins(
    world: World,
    target: StorageTarget,
    name: Seq<char>,
    content: Seq<char>,
    writes: Seq<Write>,
    roots: RootsView,
)
    requires
        target != StorageTarget::Relational,
        target == StorageTarget::Local ==> confined(name),
        forall|i: int| 0 <= i < writes.len() ==> !(#[trigger] writes[i]).concerns(target, name),
    ensures
        serve_get(
            after_writes(store(world, target, name, content, roots).0, writes, roots),
            target,
            name,
            roots,
        ).1 == content_reply(content),
    decreases writes.len(),
{
    let stored = store(world, target, name, content, roots).0;
    if writes.len() == 0 {
        law_round_trip(world, target, name, content, roots);
    } else {
        let earlier = writes.drop_last();
        assert forall|i: int| 0 <= i < earlier.len() implies !(#[trigger] earlier[i]).concerns(
            target,
            name,
        ) by {
            assert(earlier[i] == writes[i]);
        }
        law_last_write_wins(world, target, name, content, earlier, roots);
        law_write_keeps_the_rest(
            after_writes(stored, earlier, roots),
            writes.last(),
            target,
            name,
            roots,
        );
    }
}

} // verus!
