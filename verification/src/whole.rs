//! Client and daemon together.
use vstd::prelude::*;
use crate::check;
use crate::check::World;
use crate::error::Error;
use crate::protocol;
use crate::protocol::RequestView;
use crate::settings;
use crate::store;
use crate::store::{Provider, Store};

verus! {

/// The request that carries the user's answer to the check `request`.
pub open spec fn with_answer(request: RequestView, answer: Seq<char>) -> RequestView {
    RequestView { answer: Some(answer), ..request }
}

/// Whether the daemon of the world keeps `store`, asks `provider`, and replies as
/// it should, first to the check and then to the answer.
pub open spec fn is_served_by(
    world: World,
    request: RequestView,
    store: Store,
    provider: Provider,
) -> bool {
    let served = store::serve(store, request, provider);
    &&& (world.daemon)(request) matches Ok(reply) && protocol::tells(
        reply,
        served.result,
        served.cache_hit,
    )
    &&& world.user matches Ok(answer) ==> {
        let answered = store::serve(served.store, with_answer(request, answer@), provider);
        (world.daemon)(with_answer(request, answer@)) matches Ok(reply) && protocol::tells(
            reply,
            answered.result,
            answered.cache_hit,
        )
    }
}

/// A command that is checked runs if and only if the verdict on it allows it, or
/// asks for confirmation and the user allows it once or for good.
pub proof fn command_runs_iff_allowed_or_confirmed(
    command: Seq<char>,
    shell: Seq<char>,
    world: World,
    store: Store,
    provider: Provider,
)
    requires
        settings::switched_on(protocol::optional_text(world.switch)),
        !check::is_local(command),
        !check::is_too_large(command),
        check::measurable(command, shell, world),
        is_served_by(world, check::request_for(command, shell, world.around), store, provider),
    ensures
        ({
            let request = check::request_for(command, shell, world.around);
            let verdict = store::serve(store, request, provider).result;
            (check::checked(command, shell, world).result == Ok::<bool, Error>(true)) <==> {
                ||| verdict == Ok::<Seq<char>, Error>("allow"@)
                ||| {
                    &&& verdict == Ok::<Seq<char>, Error>("confirm"@)
                    &&& world.user matches Ok(answer)
                    &&& (answer@ == "once"@ || answer@ == "always"@)
                }
            }
        }),
{
    let request = check::request_for(command, shell, world.around);
    let served = store::serve(store, request, provider);
    check::lemma_checked(command, shell, world);
    store::lemma_serve(store, request, provider);
    reveal_strlit("allow");
    reveal_strlit("confirm");
    reveal_strlit("deny");
    reveal_strlit("once");
    reveal_strlit("always");
    reveal_strlit("no");
    assert("allow"@.len() == 5 && "confirm"@.len() == 7 && "deny"@.len() == 4);
    assert("once"@.len() == 4 && "always"@.len() == 6 && "no"@.len() == 2);
    if let Ok(answer) = world.user {
        store::lemma_serve(served.store, with_answer(request, answer@), provider);
        assert(served.store.key_for(with_answer(request, answer@)) == store.key_for(request));
    }
}

} // verus!
