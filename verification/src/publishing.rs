//! Publishing the Holo-hosted happs with the hosting directory: which of the
//! configured happs still need publishing, and with which installed app id.
use vstd::prelude::*;
use crate::hha_types::HappInput;
use crate::text::{contains_seq, str_contains, str_eq};

verus! {

broadcast use vstd::string::group_string_axioms;

/// The happ is already published: a published happ has its bundle url.
pub open spec fn already_published(app: HappInput, published_bundle_urls: Seq<String>) -> bool {
    exists|i: int| 0 <= i < published_bundle_urls.len() && #[trigger] published_bundle_urls[i]@ == app.bundle_url@
}

/// The positions of the happs that are not published yet, in order.
pub open spec fn unpublished_positions(apps: Seq<HappInput>, published_bundle_urls: Seq<String>) -> Seq<int>
    decreases apps.len(),
{
    if apps.len() == 0 {
        Seq::empty()
    } else {
        let rest = unpublished_positions(apps.drop_last(), published_bundle_urls);
        if already_published(apps.last(), published_bundle_urls) {
            rest
        } else {
            rest.push(apps.len() - 1)
        }
    }
}

/// Cloud Console and Holofuel run under the core app's installed app id.
pub open spec fn runs_under_core_app(name: Seq<char>) -> bool {
    contains_seq(name, "Cloud"@) || contains_seq(name, "Holofuel"@)
}

/// `out` is `app` as it gets published: with the core app's id as its special
/// installed app id when it runs under the core app, unchanged otherwise.
pub open spec fn as_published(app: HappInput, out: HappInput, core_app_id: Seq<char>) -> bool {
    if runs_under_core_app(app.name@) {
        &&& out.special_installed_app_id matches Some(id) && id@ == core_app_id
        &&& out == (HappInput { special_installed_app_id: out.special_installed_app_id, ..app })
    } else {
        out == app
    }
}

/// The happs to publish, in order: those whose bundle url no published happ
/// has, each with the core app's installed app id as special installed app id
/// when its name contains "Cloud" or "Holofuel".
pub fn happs_to_publish(apps: Vec<HappInput>, published_bundle_urls: &Vec<String>, core_app_id: &str) -> (r: Vec<HappInput>)
    ensures
        r@.len() == unpublished_positions(apps@, published_bundle_urls@).len(),
        forall|k: int| 0 <= k < r@.len() ==> as_published(
            apps@[unpublished_positions(apps@, published_bundle_urls@)[k]],
            #[trigger] r@[k],
            core_app_id@,
        ),
{
    let ghost all = apps@;
    let n = apps.len();
    let mut rest = apps;
    let mut out: Vec<HappInput> = Vec::new();
    let mut i: usize = 0;
    while rest.len() > 0
        invariant
            i + rest@.len() == all.len(),
            all.len() == n,
            rest@ == all.skip(i as int),
            out@.len() == unpublished_positions(all.take(i as int), published_bundle_urls@).len(),
            forall|k: int| 0 <= k < out@.len() ==> as_published(
                all[unpublished_positions(all.take(i as int), published_bundle_urls@)[k]],
                #[trigger] out@[k],
                core_app_id@,
            ),
            forall|k: int| 0 <= k < unpublished_positions(all.take(i as int), published_bundle_urls@).len()
                ==> 0 <= #[trigger] unpublished_positions(all.take(i as int), published_bundle_urls@)[k] < i,
        decreases rest@.len(),
    {
        let mut app = rest.remove(0);
        assert(app == all[i as int]);
        assert(all.take(i + 1).drop_last() =~= all.take(i as int));
        assert(all.take(i + 1).last() == all[i as int]);
        assert forall|j: int| 0 <= j < i implies all.take(i + 1)[j] == all.take(i as int)[j] by {}
        let published = is_published(&app, published_bundle_urls);
        if !published {
            if str_contains(app.name.as_str(), "Cloud") || str_contains(app.name.as_str(), "Holofuel") {
                app.special_installed_app_id = Some(core_app_id.to_owned());
            }
            out.push(app);
        }
        proof {
            lemma_positions_stable(all, published_bundle_urls@, i as int);
        }
        i = i + 1;
        assert(rest@ =~= all.skip(i as int));
    }
    assert(all.take(i as int) =~= all);
    out
}

proof fn lemma_positions_stable(all: Seq<HappInput>, urls: Seq<String>, i: int)
    requires
        0 <= i < all.len(),
    ensures
        unpublished_positions(all.take(i + 1), urls) == if already_published(all[i], urls) {
            unpublished_positions(all.take(i), urls)
        } else {
            unpublished_positions(all.take(i), urls).push(i)
        },
{
    assert(all.take(i + 1).drop_last() =~= all.take(i));
    assert(all.take(i + 1).last() == all[i]);
}

/// Whether some published happ has the happ's bundle url.
fn is_published(app: &HappInput, published_bundle_urls: &Vec<String>) -> (r: bool)
    ensures
        r == already_published(*app, published_bundle_urls@),
{
    let mut i: usize = 0;
    while i < published_bundle_urls.len()
        invariant
            i <= published_bundle_urls.len(),
            forall|q: int| 0 <= q < i ==> published_bundle_urls@[q]@ != app.bundle_url@,
        decreases published_bundle_urls.len() - i,
    {
        if str_eq(published_bundle_urls[i].as_str(), app.bundle_url.as_str()) {
            return true;
        }
        i = i + 1;
    }
    false
}

/// Law: a happ whose bundle url is already published is never published again.
pub proof fn published_happs_are_skipped(apps: Seq<HappInput>, urls: Seq<String>, k: int)
    requires
        0 <= k < unpublished_positions(apps, urls).len(),
    ensures
        0 <= unpublished_positions(apps, urls)[k] < apps.len(),
        !already_published(apps[unpublished_positions(apps, urls)[k]], urls),
    decreases apps.len(),
{
    let rest = unpublished_positions(apps.drop_last(), urls);
    if k < rest.len() {
        published_happs_are_skipped(apps.drop_last(), urls, k);
    }
}

/// Law: every configured happ that is not yet published gets published.
pub proof fn unpublished_happs_are_published(apps: Seq<HappInput>, urls: Seq<String>, j: int)
    requires
        0 <= j < apps.len(),
        !already_published(apps[j], urls),
    ensures
        exists|k: int| 0 <= k < unpublished_positions(apps, urls).len() && #[trigger] unpublished_positions(apps, urls)[k] == j,
    decreases apps.len(),
{
    if j < apps.len() - 1 {
        unpublished_happs_are_published(apps.drop_last(), urls, j);
        let rest = unpublished_positions(apps.drop_last(), urls);
        let k = choose|k: int| 0 <= k < rest.len() && #[trigger] rest[k] == j;
        assert(unpublished_positions(apps, urls)[k] == j);
    } else {
        let all = unpublished_positions(apps, urls);
        assert(all[all.len() - 1] == j);
    }
}

} // verus!
