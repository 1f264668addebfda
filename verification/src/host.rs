//! The bridge on a Java virtual machine, through the `jni` crate.
//!
//! What the virtual machine answers is not known to the verifier. Each call
//! into it stands in a small function of its own whose contract is believed,
//! not proved, and which therefore promises nothing about the answer. The
//! functions that use those calls are verified for every answer.

use vstd::prelude::*;
use jni::errors::Error;
use jni::objects::{GlobalRef, JClass, JStaticMethodID, JString};
use jni::JNIEnv;
use crate::bridge::{complete_initialization, conclude_call, or_fail, plan_call};
use crate::error::{after_throw, pending_in, HostError, Signal};
use crate::slot::Slot;

verus! {

/// `jni::JNIEnv`: the interface to the virtual machine on the current thread.
#[verifier::external_type_specification]
#[verifier::external_body]
pub struct ExJNIEnv<'local>(JNIEnv<'local>);

/// `jni::objects::JClass`: a reference to a class, valid in one call frame.
#[verifier::external_type_specification]
#[verifier::external_body]
pub struct ExJClass<'local>(JClass<'local>);

/// `jni::objects::JString`: a reference to a string, valid in one call frame.
#[verifier::external_type_specification]
#[verifier::external_body]
pub struct ExJString<'local>(JString<'local>);

/// `jni::objects::GlobalRef`: a reference that outlives the call frame.
#[verifier::external_type_specification]
#[verifier::external_body]
pub struct ExGlobalRef(GlobalRef);

/// `jni::objects::JStaticMethodID`: the identifier of a static method.
#[verifier::external_type_specification]
#[verifier::external_body]
pub struct ExJStaticMethodID(JStaticMethodID);

/// `jni::errors::Error`: why a call into the virtual machine failed.
#[verifier::external_type_specification]
#[verifier::external_body]
pub struct ExError(Error);

/// The class that the bridge calls into.
pub const TARGET_TYPE: &'static str = "arc/util/Log";

/// The static method of [`TARGET_TYPE`] that the bridge calls.
pub const TARGET_MEMBER: &'static str = "info";

/// The signature of [`TARGET_MEMBER`]: a string and an array of objects, no
/// result.
pub const TARGET_SIGNATURE: &'static str = "(Ljava/lang/String;[Ljava/lang/Object;)V";

/// The handles that the bootstrap resolves and the call bridge uses.
pub struct JniData {
    /// A durable reference to [`TARGET_TYPE`].
    pub class_log: GlobalRef,
    /// The identifier of [`TARGET_MEMBER`].
    pub method_log_info: JStaticMethodID,
}

/// A downstream call whose argument exists in the virtual machine.
pub struct PreparedCall<'a, 'local> {
    /// The published handles.
    pub handles: &'a JniData,
    /// The host string that holds the greeting.
    pub argument: JString<'local>,
}

/// Calls `JNIEnv::find_class`, which looks a class up by its name. Nothing is
/// claimed of the answer: it depends on what the virtual machine has loaded.
#[verifier::external_body]
fn find_class<'local>(env: &mut JNIEnv<'local>, name: &str) -> Result<JClass<'local>, Error> {
    env.find_class(name)
}

/// Calls `JNIEnv::get_static_method_id`, which looks a static method of
/// `class` up by name and signature. Nothing is claimed of the answer.
#[verifier::external_body]
fn get_static_method_id<'local>(
    env: &mut JNIEnv<'local>,
    class: &JClass<'local>,
    name: &str,
    signature: &str,
) -> Result<JStaticMethodID, Error> {
    env.get_static_method_id(class, name, signature)
}

/// Calls `JNIEnv::new_global_ref`, which asks the virtual machine for a
/// reference to `class` that stays valid after the current call frame.
/// Nothing is claimed of the answer.
#[verifier::external_body]
fn new_global_ref<'local>(env: &JNIEnv<'local>, class: JClass<'local>) -> Result<GlobalRef, Error> {
    env.new_global_ref(class)
}

/// Calls `JNIEnv::new_string`, which creates a host string from `text`.
/// Nothing is claimed of the answer.
#[verifier::external_body]
fn new_string<'local>(env: &JNIEnv<'local>, text: &str) -> Result<JString<'local>, Error> {
    env.new_string(text)
}

/// Calls `JNIEnv::exception_check`, which tells whether the virtual machine
/// has an exception pending on this thread. Nothing is claimed of the answer.
#[verifier::external_body]
fn exception_check<'local>(env: &JNIEnv<'local>) -> Result<bool, Error> {
    env.exception_check()
}

/// Calls `JNIEnv::throw_new`, which creates an exception of the class named
/// `class` with `message` and makes it pending. Nothing is claimed of the
/// answer: the class may be missing, or the virtual machine may refuse.
#[verifier::external_body]
fn throw_new<'local>(env: &mut JNIEnv<'local>, class: &str, message: &str) -> Result<(), Error> {
    env.throw_new(class, message)
}

/// The bootstrap's resolution: finds the target type, finds the target member
/// on it, and makes the type reference durable. The first step that the
/// virtual machine refuses ends the resolution, and the error names that step.
pub fn resolve_handles<'local>(env: &mut JNIEnv<'local>) -> (resolution: Result<
    JniData,
    HostError,
>)
    ensures
        resolution matches Err(error) ==> error.precedes_publication(),
{
    let class = match or_fail(find_class(env, TARGET_TYPE), HostError::TypeResolution) {
        Ok(class) => class,
        Err(error) => return Err(error),
    };
    let member = or_fail(
        get_static_method_id(env, &class, TARGET_MEMBER, TARGET_SIGNATURE),
        HostError::MemberResolution,
    );
    let method_log_info = match member {
        Ok(method) => method,
        Err(error) => return Err(error),
    };
    match or_fail(new_global_ref(env, class), HostError::ReferenceUpgrade) {
        Ok(class_log) => Ok(JniData { class_log, method_log_info }),
        Err(error) => Err(error),
    }
}

/// Reports `error` to the host. Returns the signal that reached it: the
/// exception that was pending already, or the one that the bridge threw.
/// Returns `None` where the virtual machine refused the throw, so that nothing
/// is pending.
pub fn raise<'local>(env: &mut JNIEnv<'local>, error: HostError) -> (raised: Option<Signal>)
    ensures
        raised matches Some(signal) ==> signal.delivers(error, signal is Propagate),
{
    let pending = pending_in(exception_check(env));
    let signal = error.signal(pending);
    match signal {
        Signal::Propagate => Some(signal),
        Signal::Throw(exception) => after_throw(
            signal,
            throw_new(env, exception.class, exception.message),
        ),
    }
}

/// The bootstrap entry point: resolves the handles and publishes them into
/// `slot` if it is empty. Any failure is reported to the host and returned.
///
/// A filled slot is never changed and never gives `Ok`. An empty slot is
/// filled exactly when the result is `Ok`.
#[allow(non_snake_case)]
pub fn Java_nativustry_Nativustry_initialize<'local>(
    env: &mut JNIEnv<'local>,
    slot: &mut Slot<JniData>,
) -> (outcome: Result<(), HostError>)
    ensures
        old(slot)@ is Some ==> outcome is Err,
        outcome is Ok ==> old(slot)@ is None && final(slot)@ is Some,
        outcome is Err ==> final(slot)@ == old(slot)@,
        outcome matches Err(error) ==> error.precedes_publication() || (error
            is DoubleInitialization && old(slot)@ is Some),
{
    let resolution = resolve_handles(env);
    let outcome = complete_initialization(slot, resolution);
    if let Err(error) = outcome {
        let _ = raise(env, error);
    }
    outcome
}

/// The call bridge up to the downstream call: reads the slot and creates the
/// argument in the virtual machine. Any failure is reported to the host and
/// returned; with an empty slot that is `NotInitialized`, and the virtual
/// machine is asked for nothing but the exception.
pub fn prepare_call<'a, 'local>(env: &mut JNIEnv<'local>, slot: &'a Slot<JniData>) -> (prepared:
    Result<PreparedCall<'a, 'local>, HostError>)
    ensures
        slot@ is None ==> prepared is Err,
        prepared matches Ok(call) ==> slot@ == Some(*call.handles),
        prepared matches Err(error) ==> (error is NotInitialized && slot@ is None) || (error
            is ArgumentConstruction && slot@ is Some),
{
    let invocation = match plan_call(slot) {
        Ok(invocation) => invocation,
        Err(error) => {
            let _ = raise(env, error);
            return Err(error);
        },
    };
    match or_fail(new_string(env, invocation.argument), HostError::ArgumentConstruction) {
        Ok(argument) => Ok(PreparedCall { handles: invocation.handles, argument }),
        Err(error) => {
            let _ = raise(env, error);
            Err(error)
        },
    }
}

/// The call bridge after the downstream call: a call that failed is reported
/// to the host as `DownstreamInvocation` and returned.
pub fn finish_call<'local, V>(env: &mut JNIEnv<'local>, answer: Result<V, Error>) -> (outcome:
    Result<(), HostError>)
    ensures
        outcome is Ok <==> answer is Ok,
        outcome is Err ==> outcome == Err::<(), HostError>(HostError::DownstreamInvocation),
{
    let outcome = conclude_call(answer);
    if let Err(error) = outcome {
        let _ = raise(env, error);
    }
    outcome
}

} // verus!
