//! Sized buffers: the module's shape of them, and the owned types that hold
//! what was read out of one.
//!
//! The module hands out a buffer as a declared size followed by a fixed array.
//! Nothing but the module vouches for the declared size, so it is checked
//! against the limit of the buffer's kind before a single byte is copied.
//! [`Data`], [`Private`] and [`EncryptedSecret`] have the same shape and are
//! separate types, so that none can be passed for another.
use vstd::prelude::*;
use crate::error::{Error, WrapperErrorKind};

verus! {

/// The most bytes that a [`Data`] holds.
pub const DATA_MAX_SIZE: usize = 64;

/// The most bytes that a [`Private`] holds.
pub const PRIVATE_MAX_SIZE: usize = 1550;

/// The most bytes that an [`EncryptedSecret`] holds.
pub const ENCRYPTED_SECRET_MAX_SIZE: usize = 512;

/// The module's shape of a sized buffer with room for `N` bytes.
#[derive(Clone, Copy, Debug, PartialEq, Eq)]
pub struct NativeBuffer<const N: usize> {
    /// How many bytes of `buffer` count, as the module declares it.
    pub size: u16,
    pub buffer: [u8; N],
}

/// The module's shape of a [`Data`].
pub type NativeData = NativeBuffer<DATA_MAX_SIZE>;

/// The module's shape of a [`Private`].
pub type NativePrivate = NativeBuffer<PRIVATE_MAX_SIZE>;

/// The module's shape of an [`EncryptedSecret`].
pub type NativeEncryptedSecret = NativeBuffer<ENCRYPTED_SECRET_MAX_SIZE>;

impl<const N: usize> NativeBuffer<N> {
    /// The bytes that count: the first `size` of the array.
    pub open spec fn payload(&self) -> Seq<u8> {
        self.buffer@.take(self.size as int)
    }

    /// Whether the declared size is within the room. Only then is there a
    /// payload to read.
    pub open spec fn fits(&self) -> bool {
        self.size as int <= N
    }

    /// Whether the buffer is the native form of `bytes`: it declares their
    /// number, starts with them and is zero after them.
    pub open spec fn encodes(&self, bytes: Seq<u8>) -> bool {
        &&& bytes.len() <= N
        &&& self.size as int == bytes.len()
        &&& forall|i: int|
            0 <= i < N ==> #[trigger] self.buffer@[i] == (if i < bytes.len() {
                bytes[i]
            } else {
                0u8
            })
    }

    /// The buffer that declares no byte and holds zeros.
    pub fn empty() -> (native: Self)
        ensures
            native.encodes(Seq::empty()),
    {
        NativeBuffer { size: 0, buffer: [0u8; N] }
    }

    /// Copies the payload out, after checking the declared size against the
    /// room: a buffer that declares more than fits is refused before any byte
    /// of it is copied.
    pub fn decode(&self) -> (result: Result<Vec<u8>, Error>)
        ensures
            match result {
                Ok(bytes) => self.fits() && bytes@ == self.payload(),
                Err(error) => !self.fits() && error == Error::WrapperError(
                    WrapperErrorKind::WrongParamSize,
                ),
            },
    {
        let size: usize = self.size as usize;
        if size > N {
            return Err(Error::WrapperError(WrapperErrorKind::WrongParamSize));
        }
        let mut bytes: Vec<u8> = Vec::new();
        let mut i: usize = 0;
        while i < size
            invariant
                i <= size <= N,
                size == self.size,
                bytes@ == self.buffer@.take(i as int),
            decreases size - i,
        {
            bytes.push(self.buffer[i]);
            i += 1;
        }
        Ok(bytes)
    }

    /// The native form of `bytes`.
    pub(crate) fn encode(bytes: &Vec<u8>) -> (native: Self)
        requires
            bytes@.len() <= N,
            bytes@.len() <= u16::MAX,
        ensures
            native.encodes(bytes@),
    {
        let mut buffer: [u8; N] = [0u8; N];
        let mut i: usize = 0;
        while i < bytes.len()
            invariant
                i <= bytes@.len() <= N,
                forall|j: int|
                    0 <= j < N ==> #[trigger] buffer@[j] == (if j < i {
                        bytes@[j]
                    } else {
                        0u8
                    }),
            decreases bytes@.len() - i,
        {
            buffer[i] = bytes[i];
            i += 1;
        }
        NativeBuffer { size: bytes.len() as u16, buffer }
    }
}

/// The native form of a sequence of bytes fits its room and holds those bytes
/// as its payload: reading it gives them back.
pub proof fn lemma_native_form_reads_back<const N: usize>(native: NativeBuffer<N>, bytes: Seq<u8>)
    requires
        native.encodes(bytes),
    ensures
        native.fits(),
        native.payload() == bytes,
{
    assert(native.payload() =~= bytes);
}

/// A sequence of bytes has one native form for a given room.
pub proof fn lemma_native_form_is_one<const N: usize>(
    first: NativeBuffer<N>,
    second: NativeBuffer<N>,
    bytes: Seq<u8>,
)
    requires
        first.encodes(bytes),
        second.encodes(bytes),
    ensures
        first == second,
{
    assert(first.buffer =~= second.buffer);
}

/// Bytes that parametrise a command or come back from one, such as a symmetric
/// key.
#[derive(Debug, PartialEq, Eq)]
pub struct Data {
    bytes: Vec<u8>,
}

impl View for Data {
    type V = Seq<u8>;

    closed spec fn view(&self) -> Seq<u8> {
        self.bytes@
    }
}

impl Clone for Data {
    fn clone(&self) -> (copy: Self)
        ensures
            copy@ == self@,
    {
        proof {
            use_type_invariant(self);
        }
        let bytes = self.bytes.clone();
        assert(bytes@ =~= self.bytes@);
        Data { bytes }
    }
}

impl Data {
    #[verifier::type_invariant]
    spec fn within_limit(self) -> bool {
        self.bytes@.len() <= DATA_MAX_SIZE
    }

    /// The buffer without a byte.
    pub fn empty() -> (empty: Self)
        ensures
            empty@ == Seq::<u8>::empty(),
    {
        Data { bytes: Vec::new() }
    }

    /// Takes the bytes over, unless there are more than the type may hold.
    pub fn from_bytes(bytes: Vec<u8>) -> (result: Result<Self, Error>)
        ensures
            match result {
                Ok(owned) => bytes@.len() <= DATA_MAX_SIZE && owned@ == bytes@,
                Err(error) => bytes@.len() > DATA_MAX_SIZE && error == Error::WrapperError(
                    WrapperErrorKind::WrongParamSize,
                ),
            },
    {
        if bytes.len() > DATA_MAX_SIZE {
            Err(Error::WrapperError(WrapperErrorKind::WrongParamSize))
        } else {
            Ok(Data { bytes })
        }
    }

    /// Reads a buffer that the module put out: its payload where the declared
    /// size is within the limit of the type, and else an error and not a byte
    /// of it.
    pub fn from_native(native: &NativeData) -> (result: Result<Self, Error>)
        ensures
            match result {
                Ok(owned) => native.size <= DATA_MAX_SIZE && owned@ == native.payload(),
                Err(error) => native.size > DATA_MAX_SIZE && error == Error::WrapperError(
                    WrapperErrorKind::WrongParamSize,
                ),
            },
    {
        match native.decode() {
            Ok(bytes) => Ok(Data { bytes }),
            Err(error) => Err(error),
        }
    }

    /// The native form, to hand to the module.
    pub fn to_native(&self) -> (native: NativeData)
        ensures
            native.encodes(self@),
    {
        proof {
            use_type_invariant(self);
        }
        NativeBuffer::encode(&self.bytes)
    }

    /// The bytes held.
    pub fn as_bytes(&self) -> (bytes: &[u8])
        ensures
            bytes@ == self@,
            bytes@.len() <= DATA_MAX_SIZE,
    {
        proof {
            use_type_invariant(self);
        }
        self.bytes.as_slice()
    }
}

/// The private area of an object, wrapped for its parent.
#[derive(Debug, PartialEq, Eq)]
pub struct Private {
    bytes: Vec<u8>,
}

impl View for Private {
    type V = Seq<u8>;

    closed spec fn view(&self) -> Seq<u8> {
        self.bytes@
    }
}

impl Clone for Private {
    fn clone(&self) -> (copy: Self)
        ensures
            copy@ == self@,
    {
        proof {
            use_type_invariant(self);
        }
        let bytes = self.bytes.clone();
        assert(bytes@ =~= self.bytes@);
        Private { bytes }
    }
}

impl Private {
    #[verifier::type_invariant]
    spec fn within_limit(self) -> bool {
        self.bytes@.len() <= PRIVATE_MAX_SIZE
    }

    /// Takes the bytes over, unless there are more than the type may hold.
    pub fn from_bytes(bytes: Vec<u8>) -> (result: Result<Self, Error>)
        ensures
            match result {
                Ok(owned) => bytes@.len() <= PRIVATE_MAX_SIZE && owned@ == bytes@,
                Err(error) => bytes@.len() > PRIVATE_MAX_SIZE && error == Error::WrapperError(
                    WrapperErrorKind::WrongParamSize,
                ),
            },
    {
        if bytes.len() > PRIVATE_MAX_SIZE {
            Err(Error::WrapperError(WrapperErrorKind::WrongParamSize))
        } else {
            Ok(Private { bytes })
        }
    }

    /// Reads a buffer that the module put out: its payload where the declared
    /// size is within the limit of the type, and else an error and not a byte
    /// of it.
    pub fn from_native(native: &NativePrivate) -> (result: Result<Self, Error>)
        ensures
            match result {
                Ok(owned) => native.size <= PRIVATE_MAX_SIZE && owned@ == native.payload(),
                Err(error) => native.size > PRIVATE_MAX_SIZE && error == Error::WrapperError(
                    WrapperErrorKind::WrongParamSize,
                ),
            },
    {
        match native.decode() {
            Ok(bytes) => Ok(Private { bytes }),
            Err(error) => Err(error),
        }
    }

    /// The bytes held.
    pub fn as_bytes(&self) -> (bytes: &[u8])
        ensures
            bytes@ == self@,
            bytes@.len() <= PRIVATE_MAX_SIZE,
    {
        proof {
            use_type_invariant(self);
        }
        self.bytes.as_slice()
    }
}

/// A seed protected under the asymmetric key of a parent.
#[derive(Debug, PartialEq, Eq)]
pub struct EncryptedSecret {
    bytes: Vec<u8>,
}

impl View for EncryptedSecret {
    type V = Seq<u8>;

    closed spec fn view(&self) -> Seq<u8> {
        self.bytes@
    }
}

impl Clone for EncryptedSecret {
    fn clone(&self) -> (copy: Self)
        ensures
            copy@ == self@,
    {
        proof {
            use_type_invariant(self);
        }
        let bytes = self.bytes.clone();
        assert(bytes@ =~= self.bytes@);
        EncryptedSecret { bytes }
    }
}

impl EncryptedSecret {
    #[verifier::type_invariant]
    spec fn within_limit(self) -> bool {
        self.bytes@.len() <= ENCRYPTED_SECRET_MAX_SIZE
    }

    /// Takes the bytes over, unless there are more than the type may hold.
    pub fn from_bytes(bytes: Vec<u8>) -> (result: Result<Self, Error>)
        ensures
            match result {
                Ok(owned) => bytes@.len() <= ENCRYPTED_SECRET_MAX_SIZE && owned@ == bytes@,
                Err(error) => bytes@.len() > ENCRYPTED_SECRET_MAX_SIZE && error
                    == Error::WrapperError(WrapperErrorKind::WrongParamSize),
            },
    {
        if bytes.len() > ENCRYPTED_SECRET_MAX_SIZE {
            Err(Error::WrapperError(WrapperErrorKind::WrongParamSize))
        } else {
            Ok(EncryptedSecret { bytes })
        }
    }

    /// Reads a buffer that the module put out: its payload where the declared
    /// size is within the limit of the type, and else an error and not a byte
    /// of it.
    pub fn from_native(native: &NativeEncryptedSecret) -> (result: Result<Self, Error>)
        ensures
            match result {
                Ok(owned) => native.size <= ENCRYPTED_SECRET_MAX_SIZE && owned@ == native.payload(),
                Err(error) => native.size > ENCRYPTED_SECRET_MAX_SIZE && error
                    == Error::WrapperError(WrapperErrorKind::WrongParamSize),
            },
    {
        match native.decode() {
            Ok(bytes) => Ok(EncryptedSecret { bytes }),
            Err(error) => Err(error),
        }
    }

    /// The bytes held.
    pub fn as_bytes(&self) -> (bytes: &[u8])
        ensures
            bytes@ == self@,
            bytes@.len() <= ENCRYPTED_SECRET_MAX_SIZE,
    {
        proof {
            use_type_invariant(self);
        }
        self.bytes.as_slice()
    }
}

} // verus!
