//! Duplication: wrapping a loaded object so that it can be loaded under another
//! parent.
//!
//! The operation has three steps. The command is put together from the
//! caller's values and the context's sessions, which fails where the primary
//! session is missing. The command is handed to the module, once. The
//! module's answer is read: a status other than success is the whole answer,
//! and only after a success are the three outputs decoded.
//!
//! The module itself is outside this library. Whoever calls
//! [`Context::duplicate`] passes the function that reaches it.
use vstd::prelude::*;
use crate::buffers::{
    lemma_native_form_is_one,
    Data,
    EncryptedSecret,
    NativeBuffer,
    NativeData,
    NativeEncryptedSecret,
    NativePrivate,
    Private,
};
use crate::context::Context;
use crate::error::{status_to_result, Error, ResponseCode, WrapperErrorKind, TSS2_RC_SUCCESS};
use crate::handles::{spec_slot_handle, ObjectHandle, SessionHandle};
use crate::symmetric::{NativeSymmetricDefinition, SymmetricDefinitionObject, TPM2_ALG_NULL};

verus! {

/// The Duplicate command in the shape that the module takes.
#[derive(Clone, Copy, Debug, PartialEq, Eq)]
pub struct DuplicateCommand {
    pub object_to_duplicate: ObjectHandle,
    pub new_parent_handle: ObjectHandle,
    /// The session that authorizes the use of `object_to_duplicate`.
    pub session_1: SessionHandle,
    pub session_2: SessionHandle,
    pub session_3: SessionHandle,
    pub encryption_key_in: NativeData,
    pub symmetric_alg: NativeSymmetricDefinition,
}

/// What the module answered to a Duplicate command. The three outputs mean
/// something only under the status of success; under any other status they
/// hold whatever the caller's slots held before the call.
#[derive(Clone, Copy, Debug, PartialEq, Eq)]
pub struct DuplicateResponse {
    pub status: u32,
    pub encryption_key_out: NativeData,
    pub duplicate: NativePrivate,
    pub out_sym_seed: NativeEncryptedSecret,
}

/// The bytes of a key that may be absent: an absent key counts as one of no
/// bytes, since the module knows no absent parameter.
pub open spec fn spec_key_bytes(key: Option<Data>) -> Seq<u8> {
    match key {
        Some(data) => data@,
        None => Seq::empty(),
    }
}

/// The outcome of a duplication with each buffer as the bytes it holds: the
/// key of the inner wrapper, the wrapped private area, and the seed protected
/// under the new parent.
pub open spec fn spec_outcome_bytes(
    outcome: Result<(Data, Private, EncryptedSecret), Error>,
) -> Result<(Seq<u8>, Seq<u8>, Seq<u8>), Error> {
    match outcome {
        Ok((encryption_key_out, duplicate, out_sym_seed)) => Ok(
            (encryption_key_out@, duplicate@, out_sym_seed@),
        ),
        Err(error) => Err(error),
    }
}

impl DuplicateResponse {
    /// Whether each output declares no more than its kind may hold.
    pub open spec fn outputs_fit(&self) -> bool {
        &&& self.encryption_key_out.fits()
        &&& self.duplicate.fits()
        &&& self.out_sym_seed.fits()
    }

    /// What the answer amounts to. A status other than success is returned as
    /// the error, whatever the outputs hold. After a success the result is the
    /// three payloads, unless an output declares more than fits: then it is an
    /// error, and none of the three is returned.
    pub open spec fn spec_outcome(&self) -> Result<(Seq<u8>, Seq<u8>, Seq<u8>), Error> {
        if self.status != TSS2_RC_SUCCESS {
            Err(Error::Tss2Error(ResponseCode { raw: self.status }))
        } else if self.outputs_fit() {
            Ok(
                (
                    self.encryption_key_out.payload(),
                    self.duplicate.payload(),
                    self.out_sym_seed.payload(),
                ),
            )
        } else {
            Err(Error::WrapperError(WrapperErrorKind::WrongParamSize))
        }
    }

    /// Whether the answer keeps to the module's rule for a command that asks
    /// for no inner wrapper: such a command is given a key of no bytes.
    pub open spec fn honours_null_wrapper(&self, command: DuplicateCommand) -> bool {
        command.symmetric_alg.algorithm == TPM2_ALG_NULL ==> self.encryption_key_out.size == 0
    }

    /// The answer with the given status and with every output in the state in
    /// which a caller sets its slots up before the call: declaring no byte,
    /// and zero throughout.
    pub fn with_empty_outputs(status: u32) -> (response: Self)
        ensures
            response.status == status,
            response.encryption_key_out.encodes(Seq::empty()),
            response.duplicate.encodes(Seq::empty()),
            response.out_sym_seed.encodes(Seq::empty()),
    {
        DuplicateResponse {
            status,
            encryption_key_out: NativeBuffer::empty(),
            duplicate: NativeBuffer::empty(),
            out_sym_seed: NativeBuffer::empty(),
        }
    }

    /// Reads the answer: looks at the status, and after a success decodes
    /// the key, then the private area, then the seed. The first failure is
    /// returned; what was decoded before it is dropped.
    pub fn decode(&self) -> (outcome: Result<(Data, Private, EncryptedSecret), Error>)
        ensures
            spec_outcome_bytes(outcome) == self.spec_outcome(),
    {
        match status_to_result(self.status) {
            Ok(()) => {},
            Err(error) => {
                return Err(error);
            },
        }
        let encryption_key_out = match Data::from_native(&self.encryption_key_out) {
            Ok(data) => data,
            Err(error) => {
                return Err(error);
            },
        };
        let duplicate = match Private::from_native(&self.duplicate) {
            Ok(private) => private,
            Err(error) => {
                return Err(error);
            },
        };
        let out_sym_seed = match EncryptedSecret::from_native(&self.out_sym_seed) {
            Ok(secret) => secret,
            Err(error) => {
                return Err(error);
            },
        };
        Ok((encryption_key_out, duplicate, out_sym_seed))
    }
}

impl Context {
    /// Whether `command` is the Duplicate command that this context issues for
    /// the given values: it names the two objects, carries the primary session
    /// and what the auxiliary slots hold, and holds the native forms of the
    /// key and of the symmetric definition. A context without a primary
    /// session issues no command.
    pub open spec fn issues(
        &self,
        object_to_duplicate: ObjectHandle,
        new_parent_handle: ObjectHandle,
        encryption_key_in: Option<Data>,
        symmetric_alg: SymmetricDefinitionObject,
        command: DuplicateCommand,
    ) -> bool {
        &&& self.sessions().0 == Some(command.session_1)
        &&& command.session_2 == spec_slot_handle(self.sessions().1)
        &&& command.session_3 == spec_slot_handle(self.sessions().2)
        &&& command.object_to_duplicate == object_to_duplicate
        &&& command.new_parent_handle == new_parent_handle
        &&& command.encryption_key_in.encodes(spec_key_bytes(encryption_key_in))
        &&& command.symmetric_alg == symmetric_alg.spec_to_native()
    }

    /// Puts the Duplicate command together. Fails, with
    /// [`WrapperErrorKind::MissingAuthSession`], exactly where the context has
    /// no primary session.
    pub fn duplicate_command(
        &self,
        object_to_duplicate: ObjectHandle,
        new_parent_handle: ObjectHandle,
        encryption_key_in: Option<Data>,
        symmetric_alg: SymmetricDefinitionObject,
    ) -> (result: Result<DuplicateCommand, Error>)
        ensures
            match result {
                Ok(command) => self.issues(
                    object_to_duplicate,
                    new_parent_handle,
                    encryption_key_in,
                    symmetric_alg,
                    command,
                ),
                Err(error) => self.sessions().0 is None && error == Error::WrapperError(
                    WrapperErrorKind::MissingAuthSession,
                ),
            },
    {
        let session_1 = match self.required_session_1() {
            Ok(session) => session,
            Err(error) => {
                return Err(error);
            },
        };
        let key = match encryption_key_in {
            Some(data) => data,
            None => Data::empty(),
        };
        Ok(
            DuplicateCommand {
                object_to_duplicate,
                new_parent_handle,
                session_1,
                session_2: self.optional_session_2(),
                session_3: self.optional_session_3(),
                encryption_key_in: key.to_native(),
                symmetric_alg: symmetric_alg.to_native(),
            },
        )
    }

    /// Duplicates a loaded object so that it can be used under another parent.
    ///
    /// `object_to_duplicate` must have been created without the attributes
    /// that fix it to its module and to its parent, and the primary session
    /// must satisfy its policy for duplication: the module refuses otherwise,
    /// and its status comes back as the error. Of `new_parent_handle` only the
    /// public area need be loaded. `encryption_key_in` is the key of the inner
    /// wrapper where the caller brings one; `symmetric_alg` is the inner
    /// wrapper, or [`SymmetricDefinitionObject::Null`] for none.
    ///
    /// `dispatch` hands one command to the module and returns its answer. It
    /// is called at most once, with the command that this context issues, and
    /// not at all where the primary session is missing: then the result is
    /// [`WrapperErrorKind::MissingAuthSession`], and `dispatch` need not even
    /// be callable. Otherwise the result is what the answer amounts to, see
    /// [`DuplicateResponse::spec_outcome`]. The sessions of the context stay
    /// as they were.
    pub fn duplicate<F: FnOnce(DuplicateCommand) -> DuplicateResponse>(
        &mut self,
        object_to_duplicate: ObjectHandle,
        new_parent_handle: ObjectHandle,
        encryption_key_in: Option<Data>,
        symmetric_alg: SymmetricDefinitionObject,
        dispatch: F,
    ) -> (outcome: Result<(Data, Private, EncryptedSecret), Error>)
        requires
            old(self).sessions().0 is Some ==> forall|command: DuplicateCommand|
                old(self).issues(
                    object_to_duplicate,
                    new_parent_handle,
                    encryption_key_in,
                    symmetric_alg,
                    command,
                ) ==> #[trigger] dispatch.requires((command,)),
        ensures
            *final(self) == *old(self),
            old(self).sessions().0 is None ==> spec_outcome_bytes(outcome) == Err::<
                (Seq<u8>, Seq<u8>, Seq<u8>),
                Error,
            >(Error::WrapperError(WrapperErrorKind::MissingAuthSession)),
            old(self).sessions().0 is Some ==> exists|
                command: DuplicateCommand,
                response: DuplicateResponse,
            |
                {
                    &&& old(self).issues(
                        object_to_duplicate,
                        new_parent_handle,
                        encryption_key_in,
                        symmetric_alg,
                        command,
                    )
                    &&& #[trigger] dispatch.ensures((command,), response)
                    &&& spec_outcome_bytes(outcome) == response.spec_outcome()
                },
    {
        let command = match self.duplicate_command(
            object_to_duplicate,
            new_parent_handle,
            encryption_key_in,
            symmetric_alg,
        ) {
            Ok(command) => command,
            Err(error) => {
                return Err(error);
            },
        };
        let response = dispatch(command);
        response.decode()
    }
}

/// A context issues one command for given values, and no other.
pub proof fn lemma_command_is_determined(
    context: Context,
    object_to_duplicate: ObjectHandle,
    new_parent_handle: ObjectHandle,
    encryption_key_in: Option<Data>,
    symmetric_alg: SymmetricDefinitionObject,
    first: DuplicateCommand,
    second: DuplicateCommand,
)
    requires
        context.issues(
            object_to_duplicate,
            new_parent_handle,
            encryption_key_in,
            symmetric_alg,
            first,
        ),
        context.issues(
            object_to_duplicate,
            new_parent_handle,
            encryption_key_in,
            symmetric_alg,
            second,
        ),
    ensures
        first == second,
{
    lemma_native_form_is_one(
        first.encryption_key_in,
        second.encryption_key_in,
        spec_key_bytes(encryption_key_in),
    );
}

/// A duplication returns all three outputs or none. It succeeds exactly where
/// the status is success and every output fits, and then with the payload of
/// each. A success with an output that declares more than its kind may hold
/// is an error, and not one of the three outputs is returned.
pub proof fn lemma_outcome_is_all_or_nothing(response: DuplicateResponse)
    ensures
        response.spec_outcome() is Ok <==> response.status == TSS2_RC_SUCCESS
            && response.outputs_fit(),
        response.spec_outcome() matches Ok(outputs) ==> outputs == (
            response.encryption_key_out.payload(),
            response.duplicate.payload(),
            response.out_sym_seed.payload(),
        ),
        response.status == TSS2_RC_SUCCESS && !response.outputs_fit()
            ==> response.spec_outcome() == Err::<(Seq<u8>, Seq<u8>, Seq<u8>), Error>(
            Error::WrapperError(WrapperErrorKind::WrongParamSize),
        ),
{
}

/// A status other than success is the whole answer: the error carries that
/// status, and two answers with the same such status amount to the same,
/// whatever their outputs hold.
pub proof fn lemma_failure_hides_outputs(first: DuplicateResponse, second: DuplicateResponse)
    requires
        first.status != TSS2_RC_SUCCESS,
        second.status == first.status,
    ensures
        first.spec_outcome() == Err::<(Seq<u8>, Seq<u8>, Seq<u8>), Error>(
            Error::Tss2Error(ResponseCode { raw: first.status }),
        ),
        second.spec_outcome() == first.spec_outcome(),
{
}

/// Without an inner wrapper the key that comes back is empty. Where the
/// command asks for no inner wrapper and the module keeps to its rule for
/// that, the key never makes the decoding fail, and every successful
/// duplication returns a key of no bytes: empty, not absent.
pub proof fn lemma_null_wrapper_key_is_empty(
    context: Context,
    object_to_duplicate: ObjectHandle,
    new_parent_handle: ObjectHandle,
    encryption_key_in: Option<Data>,
    command: DuplicateCommand,
    response: DuplicateResponse,
)
    requires
        context.issues(
            object_to_duplicate,
            new_parent_handle,
            encryption_key_in,
            SymmetricDefinitionObject::Null,
            command,
        ),
        response.honours_null_wrapper(command),
    ensures
        response.encryption_key_out.fits(),
        response.spec_outcome() matches Ok(outputs) ==> outputs.0.len() == 0,
{
}

} // verus!
