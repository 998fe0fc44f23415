//! Patching an image: every injection of every enabled feature is written
//! into a zero-padded copy of the source image.

use vstd::prelude::*;

use crate::applicator::{apply_patch, patch_fits, patched};
use crate::catalog::{configure_features, resolvable, resolved, Catalog};
use crate::error::PatchError;
use crate::feature::{feature_views, injection_views, Feature, FeatureView, Injection, InjectionView};
use crate::hex::{decode_hex, decoded, is_hex_text, text_bytes};
use crate::options::InstallOptions;

verus! {

/// The size of a patched image in bytes: 3072 KiB.
pub const IMAGE_SIZE: usize = 3145728;

/// One step of bringing an offset that lies beyond the image back into it.
/// Each one is worth a warning: the injection was written for an image of
/// another size.
#[derive(Debug, Clone, Copy, PartialEq, Eq, Structural)]
pub struct Correction {
    /// The address before the step.
    pub from: usize,
    /// The address after it: `from` less the size of the image.
    pub to: usize,
}

/// A patched image, and the address corrections made on the way, in the order
/// in which they were made.
#[derive(Debug, Clone, PartialEq, Eq)]
pub struct Installed {
    pub image: Vec<u8>,
    pub corrections: Vec<Correction>,
}

/// The image followed by zeros up to `size` bytes.
pub open spec fn padded(image: Seq<u8>, size: nat) -> Seq<u8> {
    Seq::new(
        size,
        |i: int| if i < image.len() {
            image[i]
        } else {
            0u8
        },
    )
}

/// The address at which an injection is written: its offset, less the size of
/// the buffer as often as it takes for the offset not to exceed that size.
pub open spec fn effective_address(offset: nat, size: nat) -> nat
    decreases offset,
{
    if size == 0 || offset <= size {
        offset
    } else {
        effective_address((offset - size) as nat, size)
    }
}

/// The steps that lead from an offset to its effective address.
pub open spec fn address_corrections(offset: nat, size: nat) -> Seq<Correction>
    decreases offset,
{
    if size == 0 || offset <= size {
        Seq::empty()
    } else {
        seq![Correction { from: offset as usize, to: (offset - size) as usize }]
            + address_corrections((offset - size) as nat, size)
    }
}

/// The patch that an injection holds.
pub open spec fn payload_bytes(injection: InjectionView) -> Seq<u8> {
    decoded(text_bytes(injection.payload))
}

/// A buffer after one injection: the payload must be hex text, and the patch
/// must fit at the effective address.
pub open spec fn inject(buffer: Seq<u8>, injection: InjectionView) -> Result<Seq<u8>, PatchError> {
    let address = effective_address(injection.offset as nat, buffer.len());
    if !is_hex_text(text_bytes(injection.payload)) {
        Err(PatchError::MalformedHex)
    } else if !patch_fits(buffer.len(), address, payload_bytes(injection).len()) {
        Err(PatchError::OutOfBounds)
    } else {
        Ok(patched(buffer, address as int, payload_bytes(injection)))
    }
}

/// A buffer after the first `n` of the injections, in order. The first one
/// that fails decides the error.
pub open spec fn inject_all(buffer: Seq<u8>, injections: Seq<InjectionView>, n: nat) -> Result<
    Seq<u8>,
    PatchError,
>
    decreases n,
{
    if n == 0 {
        Ok(buffer)
    } else {
        match inject_all(buffer, injections, (n - 1) as nat) {
            Ok(before) => inject(before, injections[n - 1]),
            Err(e) => Err(e),
        }
    }
}

/// A buffer after one feature: unchanged where the feature is off.
pub open spec fn apply_feature(buffer: Seq<u8>, feature: FeatureView) -> Result<
    Seq<u8>,
    PatchError,
> {
    if feature.enabled {
        inject_all(buffer, feature.injections, feature.injections.len())
    } else {
        Ok(buffer)
    }
}

/// A buffer after the first `n` of the features, in order.
pub open spec fn apply_features(buffer: Seq<u8>, features: Seq<FeatureView>, n: nat) -> Result<
    Seq<u8>,
    PatchError,
>
    decreases n,
{
    if n == 0 {
        Ok(buffer)
    } else {
        match apply_features(buffer, features, (n - 1) as nat) {
            Ok(before) => apply_feature(before, features[n - 1]),
            Err(e) => Err(e),
        }
    }
}

/// The corrections made for the first `n` of the injections.
pub open spec fn injection_corrections(injections: Seq<InjectionView>, n: nat, size: nat) -> Seq<
    Correction,
>
    decreases n,
{
    if n == 0 {
        Seq::empty()
    } else {
        injection_corrections(injections, (n - 1) as nat, size) + address_corrections(
            injections[n - 1].offset as nat,
            size,
        )
    }
}

/// The corrections made for the first `n` of the features: those of the
/// enabled ones.
pub open spec fn feature_corrections(features: Seq<FeatureView>, n: nat, size: nat) -> Seq<
    Correction,
>
    decreases n,
{
    if n == 0 {
        Seq::empty()
    } else if features[n - 1].enabled {
        feature_corrections(features, (n - 1) as nat, size) + injection_corrections(
            features[n - 1].injections,
            features[n - 1].injections.len(),
            size,
        )
    } else {
        feature_corrections(features, (n - 1) as nat, size)
    }
}

/// The patched image for a source image, a catalog and options. The options
/// are resolved first, then the image is measured, then the injections are
/// written; the first step that fails decides the error.
pub open spec fn installed(image: Seq<u8>, catalog: Seq<FeatureView>, options: InstallOptions) -> Result<
    Seq<u8>,
    PatchError,
> {
    if !resolvable(catalog, options) {
        Err(PatchError::IllegalToggle)
    } else if image.len() > IMAGE_SIZE {
        Err(PatchError::OversizedImage)
    } else {
        apply_features(padded(image, IMAGE_SIZE as nat), resolved(catalog, options), catalog.len())
    }
}

/// Copies the image and fills it up with zeros to `size` bytes.
pub fn pad_image(image: &[u8], size: usize) -> (r: Result<Vec<u8>, PatchError>)
    ensures
        match r {
            Ok(buffer) => image@.len() <= size && buffer@ == padded(image@, size as nat),
            Err(e) => image@.len() > size && e == PatchError::OversizedImage,
        },
{
    if image.len() > size {
        return Err(PatchError::OversizedImage);
    }
    let mut buffer: Vec<u8> = Vec::with_capacity(size);
    let mut i: usize = 0;
    while i < image.len()
        invariant
            i <= image@.len(),
            buffer@.len() == i,
            forall|k: int| 0 <= k < i ==> buffer@[k] == image@[k],
        decreases image@.len() - i,
    {
        buffer.push(image[i]);
        i += 1;
    }
    while i < size
        invariant
            image@.len() <= i <= size,
            buffer@.len() == i,
            forall|k: int| 0 <= k < image@.len() ==> buffer@[k] == image@[k],
            forall|k: int| image@.len() <= k < i ==> buffer@[k] == 0u8,
        decreases size - i,
    {
        buffer.push(0u8);
        i += 1;
    }
    assert(buffer@ =~= padded(image@, size as nat));
    Ok(buffer)
}

/// Brings an offset into a buffer of `size` bytes, and records each step.
pub fn correct_address(offset: u32, size: usize, log: &mut Vec<Correction>) -> (address: usize)
    requires
        size > 0,
    ensures
        address == effective_address(offset as nat, size as nat),
        final(log)@ == old(log)@ + address_corrections(offset as nat, size as nat),
{
    let mut address: usize = offset as usize;
    while address > size
        invariant
            size > 0,
            address <= offset,
            effective_address(address as nat, size as nat) == effective_address(
                offset as nat,
                size as nat,
            ),
            log@ + address_corrections(address as nat, size as nat) == old(log)@
                + address_corrections(offset as nat, size as nat),
        decreases address,
    {
        let ghost before = log@;
        let next: usize = address - size;
        log.push(Correction { from: address, to: next });
        assert(log@ + address_corrections(next as nat, size as nat) =~= before
            + address_corrections(address as nat, size as nat));
        address = next;
    }
    assert(log@ + address_corrections(address as nat, size as nat) =~= log@);
    address
}

/// Writes one injection into the buffer. Where it fails the buffer is as it
/// was.
pub fn apply_injection(buffer: &mut Vec<u8>, injection: &Injection, log: &mut Vec<Correction>) -> (r:
    Result<(), PatchError>)
    requires
        old(buffer)@.len() > 0,
    ensures
        match r {
            Ok(_) => inject(old(buffer)@, injection@) == Ok::<Seq<u8>, PatchError>(
                final(buffer)@,
            ) && final(log)@ == old(log)@ + address_corrections(
                injection@.offset as nat,
                old(buffer)@.len(),
            ),
            Err(e) => inject(old(buffer)@, injection@) == Err::<Seq<u8>, PatchError>(e)
                && final(buffer)@ == old(buffer)@,
        },
{
    let patch = match decode_hex(injection.payload.as_str()) {
        Ok(patch) => patch,
        Err(e) => {
            return Err(e);
        },
    };
    let address = correct_address(injection.offset, buffer.len(), log);
    apply_patch(buffer, address, patch.as_slice())
}

/// Writes the injections of one feature into the buffer, if it is enabled.
pub fn apply_feature_to(buffer: &mut Vec<u8>, feature: &Feature, log: &mut Vec<Correction>) -> (r:
    Result<(), PatchError>)
    requires
        old(buffer)@.len() > 0,
    ensures
        match r {
            Ok(_) => apply_feature(old(buffer)@, feature@) == Ok::<Seq<u8>, PatchError>(
                final(buffer)@,
            ) && final(buffer)@.len() == old(buffer)@.len() && final(log)@ == old(log)@ + (
            if feature@.enabled {
                injection_corrections(
                    feature@.injections,
                    feature@.injections.len(),
                    old(buffer)@.len(),
                )
            } else {
                Seq::empty()
            }),
            Err(e) => apply_feature(old(buffer)@, feature@) == Err::<Seq<u8>, PatchError>(e),
        },
{
    if !feature.enabled() {
        assert(log@ + Seq::<Correction>::empty() =~= log@);
        return Ok(());
    }
    let injections = feature.injections();
    let ghost views = feature@.injections;
    let ghost size = buffer@.len();
    let mut j: usize = 0;
    assert(log@ + injection_corrections(views, 0, size) =~= log@);
    while j < injections.len()
        invariant
            feature@.enabled,
            views == feature@.injections,
            views == injection_views(injections@),
            size == old(buffer)@.len(),
            size > 0,
            buffer@.len() == size,
            j <= injections@.len(),
            inject_all(old(buffer)@, views, j as nat) == Ok::<Seq<u8>, PatchError>(buffer@),
            log@ == old(log)@ + injection_corrections(views, j as nat, size),
        decreases injections@.len() - j,
    {
        assert(views[j as int] == injections@[j as int]@);
        match apply_injection(buffer, &injections[j], log) {
            Ok(_) => {},
            Err(e) => {
                proof {
                    first_failure_decides(old(buffer)@, views, (j + 1) as nat, views.len());
                }
                return Err(e);
            },
        }
        assert(log@ =~= old(log)@ + injection_corrections(views, (j + 1) as nat, size));
        j += 1;
    }
    Ok(())
}

/// Once a prefix of the injections fails, every longer prefix fails in the
/// same way.
pub proof fn first_failure_decides(buffer: Seq<u8>, injections: Seq<InjectionView>, n: nat, m: nat)
    requires
        n <= m,
        inject_all(buffer, injections, n) is Err,
    ensures
        inject_all(buffer, injections, m) == inject_all(buffer, injections, n),
    decreases m,
{
    if n < m {
        first_failure_decides(buffer, injections, n, (m - 1) as nat);
    }
}

/// Once a prefix of the features fails, every longer prefix fails in the same
/// way.
pub proof fn first_failed_feature_decides(
    buffer: Seq<u8>,
    features: Seq<FeatureView>,
    n: nat,
    m: nat,
)
    requires
        n <= m,
        apply_features(buffer, features, n) is Err,
    ensures
        apply_features(buffer, features, m) == apply_features(buffer, features, n),
    decreases m,
{
    if n < m {
        first_failed_feature_decides(buffer, features, n, (m - 1) as nat);
    }
}

/// Patches an image. The source image is copied and filled up with zeros to
/// the fixed size, and the injections of every feature that the options
/// enable are written into the copy, in catalog order. The source image and
/// the catalog are not changed.
pub fn install_into(exe_buffer: &[u8], catalog: &Catalog, options: InstallOptions) -> (r: Result<
    Installed,
    PatchError,
>)
    ensures
        match r {
            Ok(done) => installed(exe_buffer@, catalog@, options) == Ok::<Seq<u8>, PatchError>(
                done.image@,
            ) && done.image@.len() == IMAGE_SIZE && done.corrections@ == feature_corrections(
                resolved(catalog@, options),
                catalog@.len(),
                IMAGE_SIZE as nat,
            ),
            Err(e) => installed(exe_buffer@, catalog@, options) == Err::<Seq<u8>, PatchError>(e),
        },
{
    let features = match configure_features(catalog, options) {
        Ok(features) => features,
        Err(e) => {
            return Err(e);
        },
    };
    let mut buffer = match pad_image(exe_buffer, IMAGE_SIZE) {
        Ok(buffer) => buffer,
        Err(e) => {
            return Err(e);
        },
    };
    let ghost views = resolved(catalog@, options);
    let ghost start = buffer@;
    let mut log: Vec<Correction> = Vec::new();
    let mut i: usize = 0;
    while i < features.len()
        invariant
            resolvable(catalog@, options),
            exe_buffer@.len() <= IMAGE_SIZE,
            start == padded(exe_buffer@, IMAGE_SIZE as nat),
            views == resolved(catalog@, options),
            views == feature_views(features@),
            views.len() == catalog@.len(),
            start.len() == IMAGE_SIZE,
            buffer@.len() == IMAGE_SIZE,
            i <= features@.len(),
            apply_features(start, views, i as nat) == Ok::<Seq<u8>, PatchError>(buffer@),
            log@ == feature_corrections(views, i as nat, IMAGE_SIZE as nat),
        decreases features@.len() - i,
    {
        assert(views[i as int] == features@[i as int]@);
        match apply_feature_to(&mut buffer, &features[i], &mut log) {
            Ok(_) => {},
            Err(e) => {
                proof {
                    first_failed_feature_decides(start, views, (i + 1) as nat, views.len());
                }
                return Err(e);
            },
        }
        assert(log@ =~= feature_corrections(views, (i + 1) as nat, IMAGE_SIZE as nat));
        i += 1;
    }
    Ok(Installed { image: buffer, corrections: log })
}

/// Whether an injection, written into a buffer of `size` bytes, covers the
/// byte at `i`.
pub open spec fn covers(injection: InjectionView, size: nat, i: int) -> bool {
    let address = effective_address(injection.offset as nat, size);
    address <= i < address + payload_bytes(injection).len()
}

/// No injection of an enabled feature covers the byte at `i`.
pub open spec fn untouched(features: Seq<FeatureView>, size: nat, i: int) -> bool {
    forall|f: int, k: int|
        0 <= f < features.len() && features[f].enabled && 0 <= k < features[f].injections.len()
            ==> !covers(#[trigger] features[f].injections[k], size, i)
}

/// An effective address never exceeds the size of the buffer, and an offset
/// that does not exceed it is its own effective address.
pub proof fn effective_address_is_in_range(offset: nat, size: nat)
    requires
        size > 0,
    ensures
        effective_address(offset, size) <= size,
        effective_address(offset, size) <= offset,
        offset <= size ==> effective_address(offset, size) == offset,
        offset <= size ==> address_corrections(offset, size) == Seq::<Correction>::empty(),
    decreases offset,
{
    if offset > size {
        effective_address_is_in_range((offset - size) as nat, size);
    }
}

/// The effective address in closed form: an offset beyond the buffer lands
/// on `(offset - 1) % size + 1`, so that a multiple of the size lands on the
/// end of the buffer and not on its start.
pub proof fn effective_address_wraps(offset: nat, size: nat)
    requires
        size > 0,
        offset > size,
    ensures
        effective_address(offset, size) == (offset - 1) % (size as int) + 1,
    decreases offset,
{
    let rest = (offset - size) as nat;
    assert(effective_address(offset, size) == effective_address(rest, size));
    assert((offset - 1) % (size as int) == (rest - 1) % (size as int)) by (nonlinear_arith)
        requires
            size > 0,
            offset > size,
            rest == offset - size,
    ;
    if rest > size {
        effective_address_wraps(rest, size);
    } else {
        assert(effective_address(rest, size) == rest);
        assert((rest - 1) % (size as int) == rest - 1) by (nonlinear_arith)
            requires
                0 < rest <= size,
        ;
    }
}

/// Injections keep the length of a buffer, and the bytes that none of them
/// covers.
pub proof fn injections_are_local(
    buffer: Seq<u8>,
    injections: Seq<InjectionView>,
    n: nat,
    i: int,
)
    requires
        n <= injections.len(),
        inject_all(buffer, injections, n) is Ok,
        0 <= i < buffer.len(),
    ensures
        inject_all(buffer, injections, n).unwrap().len() == buffer.len(),
        (forall|k: int| 0 <= k < n ==> !covers(#[trigger] injections[k], buffer.len(), i))
            ==> inject_all(buffer, injections, n).unwrap()[i] == buffer[i],
    decreases n,
{
    if n > 0 {
        injections_are_local(buffer, injections, (n - 1) as nat, i);
    }
}

/// Features keep the length of a buffer, and the bytes that no injection of
/// an enabled one covers.
pub proof fn features_are_local(buffer: Seq<u8>, features: Seq<FeatureView>, n: nat, i: int)
    requires
        n <= features.len(),
        apply_features(buffer, features, n) is Ok,
        0 <= i < buffer.len(),
    ensures
        apply_features(buffer, features, n).unwrap().len() == buffer.len(),
        untouched(features, buffer.len(), i) ==> apply_features(buffer, features, n).unwrap()[i]
            == buffer[i],
    decreases n,
{
    if n > 0 {
        features_are_local(buffer, features, (n - 1) as nat, i);
        let before = apply_features(buffer, features, (n - 1) as nat).unwrap();
        let feature = features[n - 1];
        if feature.enabled {
            injections_are_local(before, feature.injections, feature.injections.len(), i);
        }
    }
}

/// Whenever an install succeeds, the source image was no larger than the
/// fixed size and the patched image has exactly that size.
pub proof fn installed_image_has_fixed_size(
    image: Seq<u8>,
    catalog: Seq<FeatureView>,
    options: InstallOptions,
)
    requires
        installed(image, catalog, options) is Ok,
    ensures
        image.len() <= IMAGE_SIZE,
        installed(image, catalog, options).unwrap().len() == IMAGE_SIZE,
{
    features_are_local(
        padded(image, IMAGE_SIZE as nat),
        resolved(catalog, options),
        catalog.len(),
        0,
    );
}

/// A byte that no injection of a feature enabled by the options covers is, in
/// the patched image, what it is in the zero-padded copy of the source image.
/// Where the options enable no feature at all, that is every byte.
pub proof fn untouched_bytes_are_kept(
    image: Seq<u8>,
    catalog: Seq<FeatureView>,
    options: InstallOptions,
    i: int,
)
    requires
        installed(image, catalog, options) is Ok,
        0 <= i < IMAGE_SIZE,
        untouched(resolved(catalog, options), IMAGE_SIZE as nat, i),
    ensures
        installed(image, catalog, options).unwrap()[i] == padded(image, IMAGE_SIZE as nat)[i],
        i < image.len() ==> installed(image, catalog, options).unwrap()[i] == image[i],
        i >= image.len() ==> installed(image, catalog, options).unwrap()[i] == 0u8,
{
    features_are_local(
        padded(image, IMAGE_SIZE as nat),
        resolved(catalog, options),
        catalog.len(),
        i,
    );
}

/// Where the options leave every optional feature switched off, only the
/// features that are not optional can change the image: a byte that none of
/// their injections covers is what it is in the zero-padded copy of the
/// source image.
pub proof fn optional_features_switched_off_change_nothing(
    image: Seq<u8>,
    catalog: Seq<FeatureView>,
    options: InstallOptions,
    i: int,
)
    requires
        installed(image, catalog, options) is Ok,
        0 <= i < IMAGE_SIZE,
        forall|f: int|
            0 <= f < catalog.len() && (#[trigger] catalog[f]).optional ==> !resolved(
                catalog,
                options,
            )[f].enabled,
        forall|f: int, k: int|
            0 <= f < catalog.len() && !catalog[f].optional && 0 <= k < catalog[f].injections.len()
                ==> !covers(#[trigger] catalog[f].injections[k], IMAGE_SIZE as nat, i),
    ensures
        installed(image, catalog, options).unwrap()[i] == padded(image, IMAGE_SIZE as nat)[i],
{
    let features = resolved(catalog, options);
    assert forall|f: int, k: int|
        0 <= f < features.len() && features[f].enabled && 0 <= k
            < features[f].injections.len() implies !covers(
        #[trigger] features[f].injections[k],
        IMAGE_SIZE as nat,
        i,
    ) by {
        assert(!catalog[f].optional);
        assert(features[f].injections == catalog[f].injections);
        assert(!covers(catalog[f].injections[k], IMAGE_SIZE as nat, i));
    }
    untouched_bytes_are_kept(image, catalog, options, i);
}

/// An install depends on nothing but the source image, the catalog and the
/// options: equal arguments give the same patched image, byte for byte, or
/// the same failure.
pub proof fn install_is_deterministic(
    image: Seq<u8>,
    same_image: Seq<u8>,
    catalog: Seq<FeatureView>,
    same_catalog: Seq<FeatureView>,
    options: InstallOptions,
    same_options: InstallOptions,
)
    requires
        image =~= same_image,
        catalog =~= same_catalog,
        options == same_options,
    ensures
        installed(image, catalog, options) == installed(same_image, same_catalog, same_options),
{
}

} // verus!
