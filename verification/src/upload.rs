//! `upload`: photos are matched by position with the pre-signed URLs of `init`.
use vstd::prelude::*;

use crate::download::views;
use crate::request::{check_urls, first_bad_url, InputError};
use crate::validate::{avatar_id, avatar_id_check, has_parent_component, photo_outcome_fits, photo_path, ValidationError};

verus! {

/// Arguments of `upload`.
pub struct UploadArgs {
    /// Avatar ID from `init`.
    pub avatar_id: String,
    /// Pre-signed upload URLs.
    pub urls: Option<Vec<String>>,
    /// Photo file paths, matched by position with the URLs.
    pub photos: Vec<String>,
}

/// `r` is what `upload` decides for `args` when checking the photo paths gave
/// `photos_ok`: the avatar ID, the photos, the presence of the URLs, their
/// number, and each URL are checked in that order; on success each photo is
/// paired with the URL at its position.
pub open spec fn upload_outcome(r: Result<Vec<(String, String)>, InputError>, args: UploadArgs, photos_ok: Result<(), ValidationError>) -> bool {
    if avatar_id_check(args.avatar_id@) is Some {
        r matches Err(InputError::Invalid(e)) && avatar_id_check(args.avatar_id@) == Some(e)
    } else if photos_ok is Err {
        r matches Err(InputError::Invalid(e)) && photos_ok == Err::<(), ValidationError>(e)
    } else if args.urls is None {
        r matches Err(InputError::MissingUploadUrls)
    } else if args.urls->0@.len() != args.photos@.len() {
        r matches Err(InputError::UrlCountMismatch { urls, photos })
            && urls == args.urls->0@.len() && photos == args.photos@.len()
    } else if first_bad_url(views(args.urls->0@)) is Some {
        r matches Err(InputError::Invalid(e)) && first_bad_url(views(args.urls->0@)) == Some(e)
    } else {
        r matches Ok(pairs) && pairs@.len() == args.photos@.len()
            && forall|i: int| 0 <= i < pairs@.len() ==> (#[trigger] pairs@[i]).0@ == args.photos@[i]@
                && pairs@[i].1@ == args.urls->0@[i]@
    }
}

/// Decides `upload` from its arguments and the verdict on the photo paths.
pub fn upload_pairs(args: &UploadArgs, photos_ok: Result<(), ValidationError>) -> (r: Result<Vec<(String, String)>, InputError>)
    ensures
        upload_outcome(r, *args, photos_ok),
{
    match avatar_id(args.avatar_id.as_str()) {
        Err(e) => {
            return Err(InputError::Invalid(e));
        },
        Ok(()) => {},
    }
    match photos_ok {
        Err(e) => {
            return Err(InputError::Invalid(e));
        },
        Ok(()) => {},
    }
    let urls = match &args.urls {
        Some(u) => u,
        None => {
            return Err(InputError::MissingUploadUrls);
        },
    };
    if urls.len() != args.photos.len() {
        return Err(InputError::UrlCountMismatch { urls: urls.len(), photos: args.photos.len() });
    }
    match check_urls(urls) {
        Err(e) => {
            return Err(InputError::Invalid(e));
        },
        Ok(()) => {},
    }
    let mut pairs: Vec<(String, String)> = Vec::new();
    let mut i: usize = 0;
    while i < urls.len()
        invariant
            urls@.len() == args.photos@.len(),
            i <= urls@.len(),
            pairs@.len() == i,
            forall|k: int| 0 <= k < i ==> (#[trigger] pairs@[k]).0@ == args.photos@[k]@ && pairs@[k].1@ == urls@[k]@,
        decreases urls.len() - i,
    {
        pairs.push((args.photos[i].clone(), urls[i].clone()));
        i = i + 1;
    }
    Ok(pairs)
}

/// The first error among per-photo verdicts, in order; `Ok` when there is none.
pub open spec fn first_error(v: Seq<Result<(), ValidationError>>) -> Result<(), ValidationError>
    decreases v.len(),
{
    if v.len() == 0 {
        Ok(())
    } else if v[0] is Err {
        v[0]
    } else {
        first_error(v.drop_first())
    }
}

proof fn lemma_first_error_at(v: Seq<Result<(), ValidationError>>, i: int)
    requires
        0 <= i < v.len(),
        forall|k: int| 0 <= k < i ==> v[k] is Ok,
        v[i] is Err,
    ensures
        first_error(v) == v[i],
    decreases i,
{
    if i > 0 {
        let rest = v.drop_first();
        assert forall|k: int| 0 <= k < i - 1 implies rest[k] is Ok by {
            assert(rest[k] == v[k + 1]);
        }
        assert(rest[i - 1] == v[i]);
        lemma_first_error_at(rest, i - 1);
    }
}

proof fn lemma_first_error_none(v: Seq<Result<(), ValidationError>>)
    requires
        forall|k: int| 0 <= k < v.len() ==> v[k] is Ok,
    ensures
        first_error(v) == Ok::<(), ValidationError>(()),
    decreases v.len(),
{
    if v.len() > 0 {
        let rest = v.drop_first();
        assert forall|k: int| 0 <= k < rest.len() implies rest[k] is Ok by {
            assert(rest[k] == v[k + 1]);
        }
        lemma_first_error_none(rest);
    }
}

/// The first error among per-photo verdicts, in order.
pub fn first_photo_error(verdicts: Vec<Result<(), ValidationError>>) -> (r: Result<(), ValidationError>)
    ensures
        r == first_error(verdicts@),
{
    let mut v = verdicts;
    let ghost all = verdicts@;
    let mut i: usize = 0;
    while i < v.len()
        invariant
            v@ == all,
            all == verdicts@,
            i <= all.len(),
            forall|k: int| 0 <= k < i ==> all[k] is Ok,
        decreases v.len() - i,
    {
        if v[i].is_err() {
            proof {
                lemma_first_error_at(all, i as int);
            }
            return v.remove(i);
        }
        i = i + 1;
    }
    proof {
        lemma_first_error_none(all);
    }
    Ok(())
}

/// `r` is what checking `photos` can give: each photo, in order, is handed
/// to `photo_path`, and the first refusal is the result.
pub open spec fn photos_outcome(photos: Seq<String>, r: Result<(), ValidationError>) -> bool {
    exists|v: Seq<Result<(), ValidationError>>|
        #![trigger first_error(v)]
        v.len() == photos.len() && r == first_error(v)
            && forall|i: int| 0 <= i < v.len() ==> photo_outcome_fits(photos[i]@, #[trigger] v[i])
}

/// An outcome `photo_path` can give for `path`.
pub open spec fn some_outcome(path: Seq<char>) -> Result<(), ValidationError> {
    if has_parent_component(path) {
        Err(ValidationError::ParentComponent)
    } else {
        Ok(())
    }
}

/// A sequence of outcomes that fits the photos, one by one.
pub open spec fn some_outcomes(photos: Seq<String>) -> Seq<Result<(), ValidationError>> {
    Seq::new(photos.len(), |k: int| some_outcome(photos[k]@))
}

/// Some outcome is always possible for a list of photos.
pub proof fn lemma_photos_outcome_exists(photos: Seq<String>)
    ensures
        photos_outcome(photos, first_error(some_outcomes(photos))),
{
    let v = some_outcomes(photos);
    assert(forall|i: int| 0 <= i < v.len() ==> photo_outcome_fits(photos[i]@, #[trigger] v[i]));
}

/// Checks each photo path in order; the first refused one gives the error.
/// What the file system answers decides, except that a path with `..` is
/// always refused; with no photos there is nothing to refuse.
pub fn check_photos(photos: &Vec<String>) -> (r: Result<(), ValidationError>)
    ensures
        photos_outcome(photos@, r),
        photos@.len() == 0 ==> r is Ok,
{
    let mut i: usize = 0;
    while i < photos.len()
        invariant
            i <= photos@.len(),
            forall|k: int| 0 <= k < i ==> photo_outcome_fits(photos@[k]@, Ok(())),
        decreases photos.len() - i,
    {
        let o = photo_path(photos[i].as_str());
        match o {
            Err(e) => {
                proof {
                    let n = photos@.len();
                    let w = Seq::new(n, |k: int| if k < i { Ok(()) } else if k == i { Err(e) } else { some_outcome(photos@[k]@) });
                    lemma_first_error_at(w, i as int);
                    assert(forall|j: int| 0 <= j < w.len() ==> photo_outcome_fits(photos@[j]@, #[trigger] w[j]));
                    assert(first_error(w) == Err::<(), ValidationError>(e));
                }
                return Err(e);
            },
            Ok(()) => {},
        }
        i = i + 1;
    }
    proof {
        let w = Seq::new(photos@.len(), |k: int| Ok::<(), ValidationError>(()));
        lemma_first_error_none(w);
        assert(forall|j: int| 0 <= j < w.len() ==> photo_outcome_fits(photos@[j]@, #[trigger] w[j]));
        assert(first_error(w) == Ok::<(), ValidationError>(()));
        assert(w.len() == photos@.len() && Ok::<(), ValidationError>(()) == first_error(w)
            && forall|j: int| 0 <= j < w.len() ==> photo_outcome_fits(photos@[j]@, #[trigger] w[j]));
    }
    Ok(())
}

/// Checks the arguments of `upload` and pairs photos with URLs. The photo
/// paths are checked on the file system only once the avatar ID is accepted.
pub fn upload_plan(args: &UploadArgs) -> (r: Result<Vec<(String, String)>, InputError>)
    ensures
        exists|photos_ok: Result<(), ValidationError>| upload_outcome(r, *args, photos_ok)
            && photos_outcome(args.photos@, photos_ok),
{
    match avatar_id(args.avatar_id.as_str()) {
        Err(e) => {
            let r = Err(InputError::Invalid(e));
            proof {
                lemma_photos_outcome_exists(args.photos@);
                assert(upload_outcome(r, *args, first_error(some_outcomes(args.photos@))));
            }
            return r;
        },
        Ok(()) => {},
    }
    let photos_ok = check_photos(&args.photos);
    let r = upload_pairs(args, photos_ok);
    assert(upload_outcome(r, *args, photos_ok));
    r
}

} // verus!
