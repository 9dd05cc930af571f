//! What holds of the bridge as a whole.
//!
//! Each statement here follows from the contracts of the functions that it
//! names, and is proved from them.

use vstd::prelude::*;
use crate::bridge::{standard_bindings, Hook, JavascriptPlugin, Step};
use crate::call::{OutcomeView, ScreenOpView};
use crate::host::{pset_op, sspr_op, JavascriptPluginRust, UNSET};
use crate::marshal::number_at;
use crate::number::Number;
use crate::registry::{table_of, BindingView, Handler};
use crate::value::Value;

verus! {

/// One more registration binds its opcode and leaves every other opcode as
/// it was.
pub proof fn registration_binds(log: Seq<BindingView>, binding: BindingView)
    ensures
        table_of(log.push(binding)) == table_of(log).insert(binding.opcode, binding),
{
    assert(log.push(binding).drop_last() == log);
}

/// Every binding of a table carries the opcode under which it stands.
pub proof fn bindings_stand_under_their_opcode(log: Seq<BindingView>)
    ensures
        forall|opcode: i32| #[trigger]
            table_of(log).contains_key(opcode) ==> table_of(log)[opcode].opcode == opcode,
    decreases log.len(),
{
    if log.len() > 0 {
        bindings_stand_under_their_opcode(log.drop_last());
    }
}

/// Later registrations prevail: after `more` has been registered on top of
/// `log`, an opcode that `more` binds has the binding that `more` gives it,
/// and any other opcode has the one that it had.
pub proof fn later_registrations_prevail(log: Seq<BindingView>, more: Seq<BindingView>)
    ensures
        table_of(log + more) == table_of(log).union_prefer_right(table_of(more)),
    decreases more.len(),
{
    if more.len() == 0 {
        assert(log + more == log);
        assert(table_of(log).union_prefer_right(table_of(more)) =~= table_of(log));
    } else {
        later_registrations_prevail(log, more.drop_last());
        assert((log + more).drop_last() == log + more.drop_last());
        assert(table_of(log + more) =~= table_of(log).union_prefer_right(table_of(more)));
    }
}

/// An opcode of the host interface.
pub open spec fn is_standard(opcode: i32) -> bool {
    0x1 <= opcode <= 0x9 || 0x10 <= opcode <= 0x14
}

/// The host interface binds fourteen opcodes and no two of them alike: each
/// of its bindings is in force once all are registered, and no other opcode
/// is bound by it.
pub proof fn standard_table()
    ensures
        forall|i: int|
            0 <= i < standard_bindings().len() ==> table_of(standard_bindings()).contains_key(
                (#[trigger] standard_bindings()[i]).opcode,
            ) && table_of(standard_bindings())[standard_bindings()[i].opcode]
                == standard_bindings()[i],
        forall|opcode: i32| #[trigger]
            table_of(standard_bindings()).contains_key(opcode) <==> is_standard(opcode),
{
    let all = standard_bindings();
    assert(all.len() == 14);
    let t0 = Seq::<BindingView>::empty();
    let t1 = t0.push(all[0]);
    let t2 = t1.push(all[1]);
    let t3 = t2.push(all[2]);
    let t4 = t3.push(all[3]);
    let t5 = t4.push(all[4]);
    let t6 = t5.push(all[5]);
    let t7 = t6.push(all[6]);
    let t8 = t7.push(all[7]);
    let t9 = t8.push(all[8]);
    let t10 = t9.push(all[9]);
    let t11 = t10.push(all[10]);
    let t12 = t11.push(all[11]);
    let t13 = t12.push(all[12]);
    let t14 = t13.push(all[13]);
    assert(t14 =~= all);
    registration_binds(t0, all[0]);
    registration_binds(t1, all[1]);
    registration_binds(t2, all[2]);
    registration_binds(t3, all[3]);
    registration_binds(t4, all[4]);
    registration_binds(t5, all[5]);
    registration_binds(t6, all[6]);
    registration_binds(t7, all[7]);
    registration_binds(t8, all[8]);
    registration_binds(t9, all[9]);
    registration_binds(t10, all[10]);
    registration_binds(t11, all[11]);
    registration_binds(t12, all[12]);
    registration_binds(t13, all[13]);
}

/// A call whose opcode is bound reaches the handler bound to it, and the
/// handler gets the arguments without the opcode.
pub proof fn dispatch_reaches_the_bound_handler<I, S, P, A>(
    host: JavascriptPluginRust<I, S, P, A>,
    opcode: Number,
    args: Seq<Value>,
)
    requires
        host.table().contains_key(opcode.spec_i32()),
    ensures
        host.spec_route(seq![Value::Number(opcode)] + args) == Some(
            host.table()[opcode.spec_i32()].handler,
        ),
        host.spec_dispatch(seq![Value::Number(opcode)] + args) == host.spec_call(
            host.table()[opcode.spec_i32()].handler,
            args,
        ),
{
    let raw_args = seq![Value::Number(opcode)] + args;
    assert(raw_args.subrange(1, raw_args.len() as int) =~= args);
}

/// Every opcode of the registry can be called: the number that is the opcode
/// reaches the handler bound to it.
pub proof fn every_bound_opcode_is_reachable<I, S, P, A>(
    host: JavascriptPluginRust<I, S, P, A>,
    opcode: i32,
    number: Number,
    args: Seq<Value>,
)
    requires
        host.table().contains_key(opcode),
        number.is_whole(opcode as int),
    ensures
        host.spec_route(seq![Value::Number(number)] + args) == Some(host.table()[opcode].handler),
        host.spec_dispatch(seq![Value::Number(number)] + args) == host.spec_call(
            host.table()[opcode].handler,
            args,
        ),
{
    number.lemma_whole(opcode as int);
    dispatch_reaches_the_bound_handler(host, number, args);
}

/// The outcome of a call tells which handler made it: no two handlers ever
/// answer alike. So the handler that a call reaches is the one bound to its
/// opcode and no other.
pub proof fn handlers_answer_apart<I, S, P, A>(
    host: JavascriptPluginRust<I, S, P, A>,
    one: Handler,
    other: Handler,
    args: Seq<Value>,
)
    requires
        one != other,
    ensures
        host.spec_call(one, args) != host.spec_call(other, args),
{
}

/// A call that does not start with a number, or whose opcode is not bound,
/// reaches no handler and ends with the neutral reply: no resource is lent
/// out.
pub proof fn dispatch_passes_over_malformed_calls<I, S, P, A>(
    host: JavascriptPluginRust<I, S, P, A>,
    raw_args: Seq<Value>,
)
    requires
        match number_at(raw_args, 0) {
            Some(n) => !host.table().contains_key(n.spec_i32()),
            None => true,
        },
    ensures
        host.spec_route(raw_args) is None,
        host.can_dispatch(raw_args),
        host.spec_dispatch(raw_args) == OutcomeView::<I, S, P, A>::Done(Value::spec_neutral()),
        host.spec_dispatch(raw_args).resource() is None,
{
}

/// A host object with all four resources wired takes every call.
pub proof fn wired_host_takes_every_call<I, S, P, A>(
    host: JavascriptPluginRust<I, S, P, A>,
    raw_args: Seq<Value>,
)
    requires
        host.wired(),
    ensures
        host.can_dispatch(raw_args),
{
}

/// `pset` with no more than two arguments leaves the color unset.
pub proof fn pset_without_color(args: Seq<Value>)
    requires
        args.len() <= 2,
    ensures
        pset_op(args) matches ScreenOpView::Pset { color, .. } && color == UNSET,
{
}

/// `sspr` without a number for the width of the destination takes the width
/// of the source, and likewise for the height.
pub proof fn sspr_destination_follows_source(args: Seq<Value>)
    ensures
        number_at(args, 6) is None ==> (sspr_op(args) matches ScreenOpView::Sspr { sw, dw, .. }
            && dw == sw),
        number_at(args, 7) is None ==> (sspr_op(args) matches ScreenOpView::Sspr { sh, dh, .. }
            && dh == sh),
{
}

/// `print` with fewer than three arguments is refused: the script gets minus
/// one, and the raster surface is not lent out.
pub proof fn short_print_is_refused<I, S, P, A>(
    host: JavascriptPluginRust<I, S, P, A>,
    args: Seq<Value>,
)
    requires
        args.len() < 3,
    ensures
        host.spec_print(args) == OutcomeView::<I, S, P, A>::Done(Value::spec_refused()),
        host.spec_print(args).resource() is None,
        host.spec_call(Handler::Print, args) == host.spec_print(args),
{
}

/// A call lends out one resource at most, and it is the one that its handler
/// works on: a handler of the raster surface never reaches for the audio
/// mixer, nor one of the mixer for the surface.
pub proof fn one_resource_per_call<I, S, P, A>(
    host: JavascriptPluginRust<I, S, P, A>,
    handler: Handler,
    args: Seq<Value>,
)
    ensures
        host.spec_call(handler, args).resource() == if handler.spec_lends(args.len()) {
            Some(handler.spec_resource())
        } else {
            None
        },
{
}

/// Whatever a call of the dispatcher lends out, it is what the handler that
/// the call reaches works on.
pub proof fn dispatch_lends_one_resource<I, S, P, A>(
    host: JavascriptPluginRust<I, S, P, A>,
    raw_args: Seq<Value>,
)
    ensures
        match host.spec_dispatch(raw_args).resource() {
            Some(resource) => host.spec_route(raw_args) matches Some(handler) && resource
                == handler.spec_resource(),
            None => true,
        },
{
    match host.spec_route(raw_args) {
        Some(handler) => {
            one_resource_per_call(host, handler, raw_args.subrange(1, raw_args.len() as int));
        },
        None => {},
    }
}

/// After a source that failed to evaluate no script is loaded, and no hook
/// runs, whatever was loaded before.
pub proof fn failed_load_stops_the_hooks<I, S, P, A>(
    before: JavascriptPlugin<I, S, P, A>,
    after: JavascriptPlugin<I, S, P, A>,
    hook: Hook,
)
    requires
        before.loads_to(false, &after),
    ensures
        !after.loaded(),
        after.spec_step(hook) == Step::Idle,
        !after.spec_step(hook).spec_attempted(),
{
}

/// A source that fails after one that succeeded unloads the script: the
/// bridge does not go on with code that it could not replace.
pub proof fn failed_reload_unloads<I, S, P, A>(
    before: JavascriptPlugin<I, S, P, A>,
    between: JavascriptPlugin<I, S, P, A>,
    after: JavascriptPlugin<I, S, P, A>,
    hook: Hook,
)
    requires
        before.loads_to(true, &between),
        between.loads_to(false, &after),
    ensures
        between.loaded(),
        between.spec_step(hook) == Step::Evaluate(hook),
        !after.loaded(),
        after.spec_step(hook) == Step::Idle,
{
}

/// Loading changes nothing but whether a script is loaded: the handles and
/// the bindings stay.
pub proof fn load_code_keeps_the_wiring<I, S, P, A>(
    before: JavascriptPlugin<I, S, P, A>,
    after: JavascriptPlugin<I, S, P, A>,
    evaluated: bool,
    raw_args: Seq<Value>,
)
    requires
        before.loads_to(evaluated, &after),
    ensures
        after.host().wired() == before.host().wired(),
        after.host().spec_route(raw_args) == before.host().spec_route(raw_args),
        after.host().spec_dispatch(raw_args) == before.host().spec_dispatch(raw_args),
{
}

} // verus!
