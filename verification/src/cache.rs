//! The key under which a verdict is kept.
use vstd::prelude::*;
use vstd::string::*;
use crate::json;
use crate::json::Json;
use crate::protocol::{Context, ContextView};
use crate::provider;

verus! {

/// All that a verdict depends on. The credentials are not part of it.
#[verifier::ext_equal]
pub struct Subject {
    pub context: ContextView,
    pub model: Seq<char>,
    pub endpoint: Seq<char>,
    pub prompt: Seq<char>,
}

impl Subject {
    /// The subject, as a JSON object.
    pub open spec fn tree(self) -> Json {
        Json::Object(
            map![
                "context"@ => provider::context_tree(self.context),
                "model"@ => Json::Text(self.model),
                "endpoint"@ => Json::Text(self.endpoint),
                "policy"@ => Json::Text(self.prompt),
            ],
        )
    }

    /// The key under which the verdict on the subject is kept.
    pub open spec fn key(self) -> Seq<char> {
        json::json_text(self.tree())
    }

    /// Whether no other subject has the same key.
    pub open spec fn has_its_own_key(self) -> bool {
        forall|other: Subject| #[trigger] other.key() == self.key() ==> other == self
    }
}

proof fn subject_names_differ()
    ensures
        "context"@ != "model"@,
        "context"@ != "endpoint"@,
        "context"@ != "policy"@,
        "model"@ != "endpoint"@,
        "model"@ != "policy"@,
        "endpoint"@ != "policy"@,
{
    reveal_strlit("context");
    reveal_strlit("model");
    reveal_strlit("endpoint");
    reveal_strlit("policy");
    assert("context"@.len() == 7 && "model"@.len() == 5);
    assert("endpoint"@.len() == 8 && "policy"@.len() == 6);
}

pub(crate) proof fn lemma_subject_is_plain(subject: Subject)
    ensures
        subject.tree().plain(),
{
    subject_names_differ();
    provider::context_names_differ();
    let context = provider::context_tree(subject.context);
    let members = context->Object_0;
    assert(context.plain()) by {
        assert forall|name: Seq<char>| #[trigger] members.contains_key(name) implies members[name].plain() by {
            assert(members[name] is Text || members[name] == Json::Integer(subject.context.uid as int));
        }
    }
    let all = subject.tree()->Object_0;
    assert forall|name: Seq<char>| #[trigger] all.contains_key(name) implies all[name].plain() by {
        assert(all[name] is Text || all[name] == context);
    }
}

pub(crate) proof fn lemma_tree_determines_subject(a: Subject, b: Subject)
    requires
        a.tree() == b.tree(),
    ensures
        a == b,
{
    subject_names_differ();
    provider::context_names_differ();
    let (am, bm) = (a.tree()->Object_0, b.tree()->Object_0);
    assert(am["context"@] == bm["context"@] && am["model"@] == bm["model"@]);
    assert(am["endpoint"@] == bm["endpoint"@] && am["policy"@] == bm["policy"@]);
    let (ac, bc) = (am["context"@]->Object_0, bm["context"@]->Object_0);
    assert(ac["command"@] == bc["command"@] && ac["cwd"@] == bc["cwd"@]);
    assert(ac["shell"@] == bc["shell"@] && ac["path"@] == bc["path"@]);
    assert(ac["os"@] == bc["os"@] && ac["uid"@] == bc["uid"@]);
}

/// Computes the key under which the verdict on a subject is kept. Two subjects
/// have the same key only if they agree in the command, the working directory,
/// the shell, the search path, the operating system, the user, the model, the
/// endpoint and the prompt.
pub fn cache_key(context: &Context, model: &str, endpoint: &str, prompt: &str) -> (key: String)
    ensures
        ({
            let subject = Subject {
                context: context@,
                model: model@,
                endpoint: endpoint@,
                prompt: prompt@,
            };
            &&& key@ == subject.key()
            &&& subject.has_its_own_key()
            &&& json::stands_for_one_value(key@)
        }),
{
    let ghost subject = Subject {
        context: context@,
        model: model@,
        endpoint: endpoint@,
        prompt: prompt@,
    };
    proof {
        subject_names_differ();
        reveal_with_fuel(json::members_of, 5);
    }
    let members = vec![
        ("context".to_owned(), provider::context_value(context)),
        ("model".to_owned(), json::text_value(model)),
        ("endpoint".to_owned(), json::text_value(endpoint)),
        ("policy".to_owned(), json::text_value(prompt)),
    ];
    assert(json::members_of(members@) =~= subject.tree()->Object_0);
    let key = json::encode(&json::object_value(members));
    proof {
        lemma_subject_is_plain(subject);
        assert forall|other: Subject| #[trigger] other.key() == subject.key() implies other
            == subject by {
            lemma_subject_is_plain(other);
            lemma_tree_determines_subject(other, subject);
        }
    }
    key
}

} // verus!
