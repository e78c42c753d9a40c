use std::marker::PhantomData;
use vstd::prelude::*;
use vstd::string::StringSliceAdditionalSpecFns;

use crate::bridge::{Bridge, WrapSlot};
use crate::status::{status_of_code, Error, Status};

verus! {

/// Values that stand for a host value handle.
pub trait NapiRaw {
    spec fn raw_spec(&self) -> u64;

    fn raw(&self) -> (r: u64)
        ensures
            r == self.raw_spec(),
    ;
}

/// Values that can be built from a host value handle.
pub trait NapiValue: NapiRaw + Sized {
    /// Builds the value for `value` in `env`, where `expected` tells whether
    /// the host reported `value` to be of the type that `Self` stands for;
    /// fails exactly when it did not.
    fn from_raw(env: u64, value: u64, expected: bool) -> (r: Result<Self, Error>)
        ensures
            r.is_ok() <==> expected,
            r matches Ok(v) ==> v == Self::from_raw_spec(env, value),
            r matches Err(e) ==> e.status == Self::type_error_status() && e.reason@
                == Self::type_error_reason(),
    ;

    /// Builds the value for `value` in `env` without a type check.
    fn from_raw_unchecked(env: u64, value: u64) -> (r: Self)
        ensures
            r == Self::from_raw_spec(env, value),
    ;

    /// The value built for `value` in `env`.
    spec fn from_raw_spec(env: u64, value: u64) -> Self;

    /// The status of the error given for a value of another host type.
    spec fn type_error_status() -> Status;

    /// The reason of the error given for a value of another host type.
    spec fn type_error_reason() -> Seq<char>;
}

/// A host object handle in an environment.
#[derive(PartialEq, Eq, Structural, Clone, Copy, Debug)]
pub struct Object {
    pub env: u64,
    pub value: u64,
}

impl NapiRaw for Object {
    open spec fn raw_spec(&self) -> u64 {
        self.value
    }

    fn raw(&self) -> (r: u64) {
        self.value
    }
}

impl NapiValue for Object {
    open spec fn from_raw_spec(env: u64, value: u64) -> Self {
        Object { env, value }
    }

    open spec fn type_error_status() -> Status {
        Status::ObjectExpected
    }

    open spec fn type_error_reason() -> Seq<char> {
        "Expected an object"@
    }

    fn from_raw(env: u64, value: u64, expected: bool) -> (r: Result<Self, Error>) {
        if expected {
            Ok(Object { env, value })
        } else {
            Err(Error::from_reason(Status::ObjectExpected, "Expected an object"))
        }
    }

    fn from_raw_unchecked(env: u64, value: u64) -> (r: Self) {
        Object { env, value }
    }
}

/// The object that the current call was invoked on, valid for the scope
/// `'scope`.
pub struct This<'scope, T> {
    pub object: T,
    pub phantom: PhantomData<&'scope ()>,
}

impl<'scope, T> This<'scope, T> {
    /// Wraps an already typed receiver; this cannot fail.
    pub fn from(object: T) -> (r: This<'scope, T>)
        ensures
            r.object == object,
    {
        This { object, phantom: PhantomData }
    }

    pub fn deref(&self) -> (r: &T)
        ensures
            *r == self.object,
    {
        &self.object
    }

    pub fn deref_mut(&mut self) -> (r: &mut T)
        ensures
            *r == old(self).object,
            final(self).object == *final(r),
    {
        &mut self.object
    }
}

impl<'scope, T: NapiValue> NapiValue for This<'scope, T> {
    open spec fn from_raw_spec(env: u64, value: u64) -> Self {
        This { object: T::from_raw_spec(env, value), phantom: PhantomData }
    }

    open spec fn type_error_status() -> Status {
        T::type_error_status()
    }

    open spec fn type_error_reason() -> Seq<char> {
        T::type_error_reason()
    }

    fn from_raw(env: u64, value: u64, expected: bool) -> (r: Result<Self, Error>) {
        match T::from_raw(env, value, expected) {
            Ok(object) => Ok(This { object, phantom: PhantomData }),
            Err(e) => Err(e),
        }
    }

    fn from_raw_unchecked(env: u64, value: u64) -> (r: Self) {
        This { object: T::from_raw_unchecked(env, value), phantom: PhantomData }
    }
}

impl<'scope, T: NapiRaw> NapiRaw for This<'scope, T> {
    open spec fn raw_spec(&self) -> u64 {
        self.object.raw_spec()
    }

    fn raw(&self) -> (r: u64) {
        self.object.raw()
    }
}

/// Descriptor attributes of a property defined on a receiver.
#[derive(PartialEq, Eq, Structural, Clone, Copy, Debug)]
pub struct PropertyAttributes {
    pub writable: bool,
    pub enumerable: bool,
    pub configurable: bool,
}

/// The host's bit encoding of a set of property attributes.
pub open spec fn attribute_bits(a: PropertyAttributes) -> int {
    (if a.writable { 1int } else { 0int }) + (if a.enumerable { 2int } else { 0int }) + (if a.configurable {
        4int
    } else {
        0int
    })
}

impl PropertyAttributes {
    /// The host's bit encoding of these attributes.
    pub fn bits(&self) -> (r: i32)
        ensures
            r == attribute_bits(*self),
    {
        let w: i32 = if self.writable { 1 } else { 0 };
        let e: i32 = if self.enumerable { 2 } else { 0 };
        let c: i32 = if self.configurable { 4 } else { 0 };
        w + e + c
    }
}

/// Whether a property name holds a zero byte, which the host's C strings
/// cannot carry.
pub open spec fn has_nul(name: Seq<u8>) -> bool {
    exists|i: int| 0 <= i < name.len() && name[i] == 0
}

/// The zero-terminated bytes of a property name, or a generic failure when
/// the name holds a zero byte.
pub fn property_name(name: &str) -> (r: Result<Vec<u8>, Error>)
    ensures
        r.is_ok() <==> !has_nul(name.spec_bytes()),
        r matches Ok(b) ==> b@ == name.spec_bytes().push(0u8),
        r matches Err(e) ==> e.status == Status::GenericFailure && e.reason@ == nul_reason(),
{
    let bytes = name.as_bytes_vec();
    let mut out: Vec<u8> = Vec::new();
    let mut i: usize = 0;
    while i < bytes.len()
        invariant
            bytes@ == name.spec_bytes(),
            i <= bytes.len(),
            out@ == bytes@.subrange(0, i as int),
            forall|j: int| 0 <= j < i ==> bytes@[j] != 0,
        decreases bytes.len() - i,
    {
        if bytes[i] == 0 {
            return Err(Error::from_reason(Status::GenericFailure, "nul byte found in property name"));
        }
        out.push(bytes[i]);
        i = i + 1;
        proof {
            assert(out@ =~= bytes@.subrange(0, i as int));
        }
    }
    out.push(0u8);
    proof {
        assert(bytes@.subrange(0, bytes@.len() as int) =~= bytes@);
    }
    Ok(out)
}

/// Where a recovery of tag `type_id` from the pointer `unwrapped` leads: the
/// box's address when the host gave a pointer to a known box with that tag
/// whose payload is still present, else nothing.
pub open spec fn recovered(boxes: Map<u64, WrapSlot>, unwrapped: Option<u64>, type_id: u64) -> Option<u64> {
    match unwrapped {
        None => None,
        Some(a) => if boxes.contains_key(a) && boxes[a].type_id == type_id && boxes[a].attached {
            Some(a)
        } else {
            None
        },
    }
}

/// The reason of the error for a name that holds a zero byte.
pub open spec fn nul_reason() -> Seq<char> {
    "nul byte found in property name"@
}

/// The reason of the error for a box recovered under another class's tag.
pub open spec fn wrong_type_reason(class_name: Seq<char>) -> Seq<char> {
    "Invalid argument, "@ + class_name + " on unwrap is not the type of wrapped object"@
}

/// The reason of the error for a failed set-property call.
pub open spec fn assign_reason(class_name: Seq<char>) -> Seq<char> {
    "Failed to assign ClassInstance<"@ + class_name + "> to this"@
}

/// The reason of the error for a failed define-properties call.
pub open spec fn define_reason() -> Seq<char> {
    "Failed to define properties on This in `assign_to_this_with_attributes`"@
}

/// A typed, non-owning view of a live tagged box behind a host value, valid
/// for the scope `'env`.
pub struct ClassInstance<'env, T: 'env> {
    pub value: u64,
    pub env: u64,
    pub inner: u64,
    pub phantom: PhantomData<&'env T>,
}

impl<'env, T: 'env> NapiRaw for ClassInstance<'env, T> {
    open spec fn raw_spec(&self) -> u64 {
        self.value
    }

    fn raw(&self) -> (r: u64) {
        self.value
    }
}

impl<'env, T: 'env> ClassInstance<'env, T> {
    pub fn new(value: u64, env: u64, inner: u64) -> (r: Self)
        ensures
            r.value == value,
            r.env == env,
            r.inner == inner,
    {
        ClassInstance { value, env, inner, phantom: PhantomData }
    }

    /// The address of the box this view points into.
    pub fn inner(&self) -> (r: u64)
        ensures
            r == self.inner,
    {
        self.inner
    }

    /// The host object behind this instance, in environment `env`.
    pub fn as_object(&self, env: u64) -> (r: Object)
        ensures
            r == (Object { env, value: self.value }),
    {
        Object { env, value: self.value }
    }

    /// Another view of the same box and host value, valid for `'this`.
    fn extended<'this>(&self) -> (r: ClassInstance<'this, T>)
        where
            'this: 'env,
        ensures
            r.value == self.value,
            r.env == self.env,
            r.inner == self.inner,
    {
        ClassInstance { value: self.value, env: self.env, inner: self.inner, phantom: PhantomData }
    }

    /// Stores this instance on the receiver `this` under `name`, after the
    /// host's set-property call returned `set_status`, and hands back a view
    /// of the same box that lives as long as the receiver.
    ///
    /// Fails with the name check's error when `name` holds a zero byte (the
    /// host call is then never made), else with the host's status and a
    /// reason naming the class `class_name` when the call failed.
    pub fn assign_to_this<'this, U: NapiRaw>(
        &self,
        name: &str,
        class_name: &str,
        this: &mut This<U>,
        set_status: i32,
    ) -> (r: Result<ClassInstance<'this, T>, Error>)
        where
            'this: 'env,
        ensures
            *final(this) == *old(this),
            r.is_ok() <==> !has_nul(name.spec_bytes()) && set_status == 0,
            r matches Ok(c) ==> c.value == self.value && c.inner == self.inner && c.env == self.env,
            r matches Err(e) ==> if has_nul(name.spec_bytes()) {
                e.status == Status::GenericFailure && e.reason@ == nul_reason()
            } else {
                e.status == status_of_code(set_status) && e.reason@ == assign_reason(class_name@)
            },
    {
        match property_name(name) {
            Err(e) => Err(e),
            Ok(_) => {
                if set_status != 0 {
                    let reason = String::from_str("Failed to assign ClassInstance<").concat(
                        class_name,
                    ).concat("> to this");
                    return Err(Error::new(Status::from_code(set_status), reason));
                }
                Ok(self.extended())
            },
        }
    }

    /// As `assign_to_this`, with the property defined under `attributes`
    /// through the host's define-properties call, which returned
    /// `define_status`.
    pub fn assign_to_this_with_attributes<'this, U: NapiRaw>(
        &self,
        name: &str,
        attributes: PropertyAttributes,
        this: &mut This<U>,
        define_status: i32,
    ) -> (r: Result<ClassInstance<'this, T>, Error>)
        where
            'this: 'env,
        ensures
            *final(this) == *old(this),
            r.is_ok() <==> !has_nul(name.spec_bytes()) && define_status == 0,
            r matches Ok(c) ==> c.value == self.value && c.inner == self.inner && c.env == self.env,
            r matches Err(e) ==> if has_nul(name.spec_bytes()) {
                e.status == Status::GenericFailure && e.reason@ == nul_reason()
            } else {
                e.status == status_of_code(define_status) && e.reason@ == define_reason()
            },
    {
        match property_name(name) {
            Err(e) => Err(e),
            Ok(_) => {
                if define_status != 0 {
                    return Err(
                        Error::from_reason(
                            Status::from_code(define_status),
                            "Failed to define properties on This in `assign_to_this_with_attributes`",
                        ),
                    );
                }
                Ok(self.extended())
            },
        }
    }

    /// Recovers a typed view from the host value `napi_val`, given the pointer
    /// that the host's unwrap call gave for it (`None` when it reported
    /// none) and the tag `type_id` of the class named `class_name`.
    ///
    /// Succeeds exactly when the pointer leads to a known box with that tag
    /// whose payload is still present; every failure is an invalid-argument
    /// error, and no view is made.
    pub fn from_napi_value(
        bridge: &Bridge,
        env: u64,
        napi_val: u64,
        unwrapped: Option<u64>,
        type_id: u64,
        class_name: &str,
    ) -> (r: Result<Self, Error>)
        ensures
            r.is_ok() <==> recovered(bridge.boxes(), unwrapped, type_id) is Some,
            r matches Ok(c) ==> c.value == napi_val && c.env == env && Some(c.inner) == recovered(
                bridge.boxes(),
                unwrapped,
                type_id,
            ),
            r matches Err(e) ==> e.status == Status::InvalidArg,
            r matches Err(e) ==> match unwrapped {
                None => e.reason@ == "Invalid argument, nothing is wrapped"@,
                Some(a) => if !bridge.boxes().contains_key(a) {
                    e.reason@ == "Invalid argument, unknown wrapped object"@
                } else if bridge.boxes()[a].type_id != type_id {
                    e.reason@ == wrong_type_reason(class_name@)
                } else {
                    e.reason@ == "Invalid argument, nothing attach to js_object"@
                },
            },
    {
        let address = match unwrapped {
            None => {
                return Err(Error::from_reason(Status::InvalidArg, "Invalid argument, nothing is wrapped"));
            },
            Some(a) => a,
        };
        let slot = match bridge.slot(address) {
            None => {
                return Err(Error::from_reason(Status::InvalidArg, "Invalid argument, unknown wrapped object"));
            },
            Some(s) => s,
        };
        if slot.type_id != type_id {
            let reason = String::from_str("Invalid argument, ").concat(class_name).concat(
                " on unwrap is not the type of wrapped object",
            );
            return Err(Error::new(Status::InvalidArg, reason));
        }
        if !slot.attached {
            return Err(
                Error::from_reason(Status::InvalidArg, "Invalid argument, nothing attach to js_object"),
            );
        }
        Ok(ClassInstance::new(napi_val, env, address))
    }
}

/// Methods that each exported class gets for making host instances of its
/// native values.
pub trait JavaScriptClassExt: Sized {
    fn into_instance(self, env: &mut Bridge) -> Result<ClassInstance<Self>, Error>;

    fn into_reference(self, env: &mut Bridge) -> Result<u64, Error>;

    fn instance_of<V: NapiRaw>(env: &Bridge, value: V) -> Result<bool, Error>;
}

/// Recovering a box under another class's tag always fails: a box written
/// with tag `a` is never viewed as a box of tag `b`.
pub proof fn lemma_type_safety(boxes: Map<u64, WrapSlot>, address: u64, a: u64, b: u64)
    requires
        boxes.contains_key(address),
        boxes[address].type_id == a,
        a != b,
    ensures
        recovered(boxes, Some(address), b) is None,
{
}

} // verus!
