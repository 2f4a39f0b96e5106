//! What holds of every upload and of every download, whatever the client
//! sends and whatever the disk does. A run of the upload handler is spoken
//! of as the events that are reported to it, one after the other, and the
//! actions that it asks for in turn.

use crate::download::{download_reply, ReadOutcomeView};
use crate::filename::{extension_needs_a_dot, stored_name, validation};
use crate::reply::{message_reply, BodyView, Status, ValidationError};
use crate::storage::{Directory, LocationView};
use crate::upload::{
    admissible, next, success_reply, upload_location, ActionView, EventView, State,
};
use vstd::prelude::*;

verus! {

/// The actions that the handler asks for, in order, when it is in `state`
/// and `events` are reported to it one after the other. The run is over
/// where an event is no answer to what the handler is waiting for.
pub open spec fn actions(secret: Seq<u8>, state: State, events: Seq<EventView>) -> Seq<ActionView>
    decreases events.len(),
{
    if events.len() == 0 {
        Seq::empty()
    } else {
        match next(secret, state, events[0]) {
            Some(transition) => seq![transition.action] + actions(
                secret,
                transition.state,
                events.drop_first(),
            ),
            None => Seq::empty(),
        }
    }
}

/// The file that an action creates or writes to, if it does either.
pub open spec fn stored_file(action: ActionView) -> Option<LocationView> {
    match action {
        ActionView::CreateFile { location } => Some(location),
        ActionView::WriteFile { location, .. } => Some(location),
        _ => None,
    }
}

/// The events of a field that is named `name`, carries `data` and is stored
/// without a failure.
pub open spec fn field_stored(name: Seq<char>, data: Seq<u8>) -> Seq<EventView> {
    seq![
        EventView::Field { file_name: Some(name) },
        EventView::Body { data },
        EventView::Created,
        EventView::Written,
    ]
}

/// What the handler asks for to store `data` under `name`, and to go on.
pub open spec fn storing(name: Seq<char>, data: Seq<u8>) -> Seq<ActionView> {
    seq![
        ActionView::ReadBody,
        ActionView::CreateFile { location: upload_location(name) },
        ActionView::WriteFile { location: upload_location(name), data },
        ActionView::NextField,
    ]
}

/// The action that answers a request with a status and a message.
pub open spec fn answer(status: Status, text: Seq<char>) -> ActionView {
    ActionView::Respond { reply: message_reply(status, text) }
}

/// A run whose first event is answered goes on from the state decided, with
/// the events that are left.
proof fn lemma_first_step(secret: Seq<u8>, state: State, first: EventView, rest: Seq<EventView>)
    ensures
        actions(secret, state, seq![first] + rest) == match next(secret, state, first) {
            Some(transition) => seq![transition.action] + actions(secret, transition.state, rest),
            None => Seq::empty(),
        },
{
    let events = seq![first] + rest;
    assert(events[0] == first);
    assert(events.drop_first() =~= rest);
}

/// An answer ends the request: whatever is reported afterwards, the handler
/// asks for nothing more.
pub proof fn nothing_follows_an_answer(secret: Seq<u8>, events: Seq<EventView>)
    ensures
        actions(secret, State::Finished, events) == Seq::<ActionView>::empty(),
{
}

/// A request without a credential is answered with 401 and "Missing
/// Authorization header", and nothing else is done for it, whatever it
/// carries: no directory is made, no field is read, no file is touched.
pub proof fn missing_credential_is_refused(secret: Seq<u8>, rest: Seq<EventView>)
    ensures
        actions(
            secret,
            State::AwaitingRequest,
            seq![EventView::Request { credential: None }] + rest,
        ) == seq![answer(Status::Unauthorized, "Missing Authorization header"@)],
{
    lemma_first_step(secret, State::AwaitingRequest, EventView::Request { credential: None }, rest);
    nothing_follows_an_answer(secret, rest);
}

/// A request whose credential is not the secret is answered with 401 and
/// "Invalid API key", and nothing else is done for it.
pub proof fn wrong_credential_is_refused(
    secret: Seq<u8>,
    credential: Seq<u8>,
    rest: Seq<EventView>,
)
    requires
        credential != secret,
    ensures
        actions(
            secret,
            State::AwaitingRequest,
            seq![EventView::Request { credential: Some(credential) }] + rest,
        ) == seq![answer(Status::Unauthorized, "Invalid API key"@)],
{
    lemma_first_step(
        secret,
        State::AwaitingRequest,
        EventView::Request { credential: Some(credential) },
        rest,
    );
    nothing_follows_an_answer(secret, rest);
}

/// A request that presents the secret gets the upload directory prepared
/// and, once that is done, its first field fetched.
pub proof fn right_credential_opens_the_upload(secret: Seq<u8>, rest: Seq<EventView>)
    ensures
        actions(
            secret,
            State::AwaitingRequest,
            seq![EventView::Request { credential: Some(secret) }, EventView::DirectoryReady] + rest,
        ) == seq![
            ActionView::PrepareDirectory { directory: Directory::Upload },
            ActionView::NextField,
        ] + actions(secret, State::AwaitingField, rest),
{
    let request = EventView::Request { credential: Some(secret) };
    let events = seq![request, EventView::DirectoryReady] + rest;
    assert(events =~= seq![request] + (seq![EventView::DirectoryReady] + rest));
    lemma_first_step(secret, State::AwaitingRequest, request, seq![EventView::DirectoryReady] + rest);
    lemma_first_step(secret, State::AwaitingDirectory, EventView::DirectoryReady, rest);
    let tail = actions(secret, State::AwaitingField, rest);
    assert(seq![ActionView::PrepareDirectory { directory: Directory::Upload }] + (seq![
        ActionView::NextField,
    ] + tail) =~= seq![
        ActionView::PrepareDirectory { directory: Directory::Upload },
        ActionView::NextField,
    ] + tail);
}

/// Where the upload directory cannot be made, the request is answered with
/// 500 before any field is looked at.
pub proof fn missing_directory_ends_the_request(secret: Seq<u8>, rest: Seq<EventView>)
    ensures
        actions(secret, State::AwaitingDirectory, seq![EventView::DirectoryFailed] + rest) == seq![
            answer(Status::InternalServerError, "Server error"@),
        ],
{
    lemma_first_step(secret, State::AwaitingDirectory, EventView::DirectoryFailed, rest);
    nothing_follows_an_answer(secret, rest);
}

/// A field whose name is accepted is stored as it came: its body is read,
/// its file is created in the upload directory under the field's own name,
/// and the body's bytes are written to it. Then the next field is fetched,
/// and what happens to that one changes nothing about this one.
pub proof fn accepted_field_is_stored(
    secret: Seq<u8>,
    name: Seq<char>,
    data: Seq<u8>,
    rest: Seq<EventView>,
)
    requires
        validation(name) is Ok,
    ensures
        actions(secret, State::AwaitingField, field_stored(name, data) + rest) == storing(name, data)
            + actions(secret, State::AwaitingField, rest),
{
    let field = EventView::Field { file_name: Some(name) };
    let body = EventView::Body { data };
    let after_field = seq![body, EventView::Created, EventView::Written] + rest;
    let after_body = seq![EventView::Created, EventView::Written] + rest;
    let after_created = seq![EventView::Written] + rest;
    assert(field_stored(name, data) + rest =~= seq![field] + after_field);
    assert(after_field =~= seq![body] + after_body);
    assert(after_body =~= seq![EventView::Created] + after_created);
    lemma_first_step(secret, State::AwaitingField, field, after_field);
    lemma_first_step(secret, State::AwaitingBody { name }, body, after_body);
    lemma_first_step(secret, State::AwaitingCreate { name, data }, EventView::Created, after_created);
    lemma_first_step(secret, State::AwaitingWrite { name }, EventView::Written, rest);
    let tail = actions(secret, State::AwaitingField, rest);
    let location = upload_location(name);
    assert(seq![ActionView::ReadBody] + (seq![ActionView::CreateFile { location }] + (seq![
        ActionView::WriteFile { location, data },
    ] + (seq![ActionView::NextField] + tail))) =~= storing(name, data) + tail);
}

/// A field whose name is refused ends the request with 400 and the reason.
/// Its body is not read and no file is made for it.
pub proof fn refused_field_ends_the_request(
    secret: Seq<u8>,
    file_name: Option<Seq<char>>,
    rest: Seq<EventView>,
)
    requires
        validation(stored_name(file_name)) is Err,
    ensures
        actions(secret, State::AwaitingField, seq![EventView::Field { file_name }] + rest) == seq![
            answer(
                Status::BadRequest,
                match validation(stored_name(file_name)) {
                    Err(ValidationError::NoExtension) => "File has no extension"@,
                    _ => "File type not allowed"@,
                },
            ),
        ],
{
    lemma_first_step(secret, State::AwaitingField, EventView::Field { file_name }, rest);
    nothing_follows_an_answer(secret, rest);
}

/// A field whose name holds no `.` ends the request with 400 and "File has
/// no extension"; no file is made for it.
pub proof fn name_without_dot_is_refused(secret: Seq<u8>, name: Seq<char>, rest: Seq<EventView>)
    requires
        !name.contains('.'),
    ensures
        actions(
            secret,
            State::AwaitingField,
            seq![EventView::Field { file_name: Some(name) }] + rest,
        ) == seq![answer(Status::BadRequest, "File has no extension"@)],
{
    extension_needs_a_dot(name);
    refused_field_ends_the_request(secret, Some(name), rest);
}

/// When the fields are used up, the request is answered with 200 and "File
/// uploaded successfully!".
pub proof fn last_field_is_followed_by_success(secret: Seq<u8>, rest: Seq<EventView>)
    ensures
        actions(secret, State::AwaitingField, seq![EventView::EndOfFields] + rest) == seq![
            ActionView::Respond { reply: success_reply() },
        ],
{
    lemma_first_step(secret, State::AwaitingField, EventView::EndOfFields, rest);
    nothing_follows_an_answer(secret, rest);
}

/// Where a field's file cannot be created, the request is answered with 500
/// and "Failed to create file", and nothing is written.
pub proof fn failed_create_ends_the_request(
    secret: Seq<u8>,
    name: Seq<char>,
    data: Seq<u8>,
    rest: Seq<EventView>,
)
    ensures
        actions(
            secret,
            State::AwaitingCreate { name, data },
            seq![EventView::CreateFailed] + rest,
        ) == seq![answer(Status::InternalServerError, "Failed to create file"@)],
{
    lemma_first_step(secret, State::AwaitingCreate { name, data }, EventView::CreateFailed, rest);
    nothing_follows_an_answer(secret, rest);
}

/// Where a field's bytes cannot be written, the request is answered with
/// 500 and "Failed to save file".
pub proof fn failed_write_ends_the_request(secret: Seq<u8>, name: Seq<char>, rest: Seq<EventView>)
    ensures
        actions(secret, State::AwaitingWrite { name }, seq![EventView::WriteFailed] + rest) == seq![
            answer(Status::InternalServerError, "Failed to save file"@),
        ],
{
    lemma_first_step(secret, State::AwaitingWrite { name }, EventView::WriteFailed, rest);
    nothing_follows_an_answer(secret, rest);
}

/// A request stores its fields one by one, and a field that is refused
/// undoes nothing: where an accepted field is followed by a refused one, the
/// first is created and written in full before the request is answered with
/// 400, and nothing is asked for after that answer.
pub proof fn refused_field_leaves_earlier_field_stored(
    secret: Seq<u8>,
    name: Seq<char>,
    data: Seq<u8>,
    refused: Option<Seq<char>>,
    rest: Seq<EventView>,
)
    requires
        validation(name) is Ok,
        validation(stored_name(refused)) is Err,
    ensures
        actions(
            secret,
            State::AwaitingRequest,
            seq![EventView::Request { credential: Some(secret) }, EventView::DirectoryReady]
                + field_stored(name, data) + seq![EventView::Field { file_name: refused }] + rest,
        ) == seq![
            ActionView::PrepareDirectory { directory: Directory::Upload },
            ActionView::NextField,
        ] + storing(name, data) + seq![
            answer(
                Status::BadRequest,
                match validation(stored_name(refused)) {
                    Err(ValidationError::NoExtension) => "File has no extension"@,
                    _ => "File type not allowed"@,
                },
            ),
        ],
{
    let opening = seq![
        EventView::Request { credential: Some(secret) },
        EventView::DirectoryReady,
    ];
    let last = seq![EventView::Field { file_name: refused }] + rest;
    assert(opening + field_stored(name, data) + seq![EventView::Field { file_name: refused }] + rest
        =~= opening + (field_stored(name, data) + last));
    right_credential_opens_the_upload(secret, field_stored(name, data) + last);
    accepted_field_is_stored(secret, name, data, last);
    refused_field_ends_the_request(secret, refused, rest);
}

/// What is uploaded comes back byte for byte. A request that presents the
/// secret and carries one field with an accepted name has exactly the
/// field's bytes written under the field's name and is answered with 200;
/// and a download of that name which finds these bytes answers with 200 and
/// exactly them as its body.
pub proof fn upload_then_download_returns_the_content(
    secret: Seq<u8>,
    name: Seq<char>,
    data: Seq<u8>,
)
    requires
        validation(name) is Ok,
    ensures
        actions(
            secret,
            State::AwaitingRequest,
            seq![EventView::Request { credential: Some(secret) }, EventView::DirectoryReady]
                + field_stored(name, data) + seq![EventView::EndOfFields],
        ) == seq![
            ActionView::PrepareDirectory { directory: Directory::Upload },
            ActionView::NextField,
        ] + storing(name, data) + seq![answer(Status::Success, "File uploaded successfully!"@)],
        download_reply(name, ReadOutcomeView::Content(data)).status == Status::Success,
        download_reply(name, ReadOutcomeView::Content(data)).body == BodyView::Bytes(data),
{
    let opening = seq![
        EventView::Request { credential: Some(secret) },
        EventView::DirectoryReady,
    ];
    let last = seq![EventView::EndOfFields];
    assert(opening + field_stored(name, data) + last =~= opening + (field_stored(name, data)
        + last));
    assert(last =~= last + Seq::<EventView>::empty());
    right_credential_opens_the_upload(secret, field_stored(name, data) + last);
    accepted_field_is_stored(secret, name, data, last);
    last_field_is_followed_by_success(secret, Seq::empty());
}

/// Every decision leads from a state that can come about to another one.
pub proof fn decisions_keep_states_admissible(secret: Seq<u8>, state: State, event: EventView)
    requires
        admissible(state),
    ensures
        next(secret, state, event) matches Some(transition) ==> admissible(transition.state),
{
}

/// From a state that can come about, files are created and written only in
/// the upload directory and only under accepted names.
proof fn lemma_stored_files_are_accepted(
    secret: Seq<u8>,
    state: State,
    events: Seq<EventView>,
    i: int,
)
    requires
        admissible(state),
        0 <= i < actions(secret, state, events).len(),
        stored_file(actions(secret, state, events)[i]) is Some,
    ensures
        stored_file(actions(secret, state, events)[i])->0.directory == Directory::Upload,
        validation(stored_file(actions(secret, state, events)[i])->0.name) is Ok,
    decreases events.len(),
{
    let transition = next(secret, state, events[0])->0;
    if i > 0 {
        decisions_keep_states_admissible(secret, state, events[0]);
        lemma_stored_files_are_accepted(secret, transition.state, events.drop_first(), i - 1);
    }
}

/// No file is stored unless every check was passed. Whatever is reported to
/// the handler of a request: each file that it asks to be created or written
/// lies in the upload directory and has a name with an extension from the
/// allow-list, and the request presented the secret.
pub proof fn files_are_stored_only_after_every_check(
    secret: Seq<u8>,
    events: Seq<EventView>,
    i: int,
)
    requires
        0 <= i < actions(secret, State::AwaitingRequest, events).len(),
        stored_file(actions(secret, State::AwaitingRequest, events)[i]) is Some,
    ensures
        events[0] == (EventView::Request { credential: Some(secret) }),
        stored_file(actions(secret, State::AwaitingRequest, events)[i])->0.directory
            == Directory::Upload,
        validation(stored_file(actions(secret, State::AwaitingRequest, events)[i])->0.name) is Ok,
{
    lemma_stored_files_are_accepted(secret, State::AwaitingRequest, events, i);
    if events[0] != (EventView::Request { credential: Some(secret) }) {
        nothing_follows_an_answer(secret, events.drop_first());
    }
}

} // verus!
