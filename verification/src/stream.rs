//! Streams a class exposes: which class owns the stream, and the owned
//! type its items are batched as.
use vstd::prelude::*;

use crate::ast::{
    ClassId, EnumId, RecordId, TraitId, ClosureType, ReturnDef, TypeExpr, TypeView, return_view, type_view, type_views,
};
use crate::expansion::{ExpansionError, ExpansionErrorView};
use crate::source_names::{accepted, checked_ident, checked_view, parses_as_ident};
use crate::text::text_eq;
use crate::type_ref::TypeRef;

verus! {

/// The owned form of a type: borrowed strings become `String`, slices
/// become `Vec`, and so on inside every container.
pub open spec fn owned_view(ty: TypeView) -> TypeView
    decreases ty,
{
    match ty {
        TypeView::Str => TypeView::String,
        TypeView::Slice(element) => TypeView::Vec(Box::new(owned_view(*element))),
        TypeView::Vec(element) => TypeView::Vec(Box::new(owned_view(*element))),
        TypeView::Option(inner) => TypeView::Option(Box::new(owned_view(*inner))),
        TypeView::Result { ok, err } => TypeView::Result {
            ok: Box::new(owned_view(*ok)),
            err: Box::new(owned_view(*err)),
        },
        TypeView::Tuple(elements) => TypeView::Tuple(owned_views(elements)),
        TypeView::MapOf { key, value } => TypeView::MapOf {
            key: Box::new(owned_view(*key)),
            value: Box::new(owned_view(*value)),
        },
        _ => ty,
    }
}

/// The owned forms of a list of types.
pub open spec fn owned_views(types: Seq<TypeView>) -> Seq<TypeView>
    decreases types,
{
    if types.len() == 0 {
        Seq::empty()
    } else {
        owned_views(types.drop_last()).push(owned_view(types.last()))
    }
}

/// Whether a type borrows nowhere outside closure signatures.
pub open spec fn is_owned(ty: TypeView) -> bool
    decreases ty,
{
    match ty {
        TypeView::Str => false,
        TypeView::Slice(_) => false,
        TypeView::Vec(element) => is_owned(*element),
        TypeView::Option(inner) => is_owned(*inner),
        TypeView::Result { ok, err } => is_owned(*ok) && is_owned(*err),
        TypeView::Tuple(elements) => all_owned(elements),
        TypeView::MapOf { key, value } => is_owned(*key) && is_owned(*value),
        _ => true,
    }
}

/// Whether every type of a list is owned.
pub open spec fn all_owned(types: Seq<TypeView>) -> bool
    decreases types,
{
    if types.len() == 0 {
        true
    } else {
        all_owned(types.drop_last()) && is_owned(types.last())
    }
}

/// The owned form is owned, and taking it again changes nothing.
pub proof fn lemma_owned_is_fixed(ty: TypeView)
    ensures
        is_owned(owned_view(ty)),
        owned_view(owned_view(ty)) == owned_view(ty),
    decreases ty,
{
    match ty {
        TypeView::Slice(element) => lemma_owned_is_fixed(*element),
        TypeView::Vec(element) => lemma_owned_is_fixed(*element),
        TypeView::Option(inner) => lemma_owned_is_fixed(*inner),
        TypeView::Result { ok, err } => {
            lemma_owned_is_fixed(*ok);
            lemma_owned_is_fixed(*err);
        },
        TypeView::Tuple(elements) => lemma_owned_list_is_fixed(elements),
        TypeView::MapOf { key, value } => {
            lemma_owned_is_fixed(*key);
            lemma_owned_is_fixed(*value);
        },
        _ => {},
    }
}

/// [`lemma_owned_is_fixed`] for every type of a list.
pub proof fn lemma_owned_list_is_fixed(types: Seq<TypeView>)
    ensures
        all_owned(owned_views(types)),
        owned_views(owned_views(types)) == owned_views(types),
    decreases types,
{
    if types.len() > 0 {
        lemma_owned_list_is_fixed(types.drop_last());
        lemma_owned_is_fixed(types.last());
        let owned = owned_views(types);
        assert(owned.drop_last() == owned_views(types.drop_last()));
        assert(owned.last() == owned_view(types.last()));
    }
}

/// Copies a type expression.
pub fn copy_type(ty: &TypeExpr) -> (copy: TypeExpr)
    ensures
        type_view(copy) == type_view(*ty),
    decreases ty,
{
    match ty {
        TypeExpr::Primitive(primitive) => TypeExpr::Primitive(*primitive),
        TypeExpr::String => TypeExpr::String,
        TypeExpr::Str => TypeExpr::Str,
        TypeExpr::Slice(element) => TypeExpr::Slice(Box::new(copy_type(element))),
        TypeExpr::Vec(element) => TypeExpr::vec(copy_type(element)),
        TypeExpr::Option(inner) => TypeExpr::option(copy_type(inner)),
        TypeExpr::Result { ok, err } => TypeExpr::result(copy_type(ok), copy_type(err)),
        TypeExpr::MapOf { key, value } => TypeExpr::map(copy_type(key), copy_type(value)),
        TypeExpr::Tuple(elements) => TypeExpr::tuple(copy_types(elements)),
        TypeExpr::Unit => TypeExpr::Unit,
        TypeExpr::Bytes => TypeExpr::Bytes,
        TypeExpr::SelfType => TypeExpr::SelfType,
        TypeExpr::Record(id) => TypeExpr::Record(RecordId(id.0.clone())),
        TypeExpr::Enum(id) => TypeExpr::Enum(EnumId(id.0.clone())),
        TypeExpr::Class { id, presence } => TypeExpr::Class { id: ClassId(id.0.clone()), presence: *presence },
        TypeExpr::Trait { id, form, presence } => TypeExpr::Trait {
            id: TraitId(id.0.clone()),
            form: *form,
            presence: *presence,
        },
        TypeExpr::Closure { signature, presence } => {
            let output = match &signature.output {
                ReturnDef::Void => ReturnDef::Void,
                ReturnDef::Value(ty) => ReturnDef::Value(copy_type(ty)),
            };
            assert(return_view(output) == return_view(signature.output));
            let parameters = copy_types(&signature.parameters);
            let copied = ClosureType::new(signature.kind, parameters, output);
            assert(type_views(copied.parameters@) == type_views(signature.parameters@));
            TypeExpr::Closure { signature: Box::new(copied), presence: *presence }
        },
    }
}

/// Copies a list of type expressions.
pub fn copy_types(types: &Vec<TypeExpr>) -> (copy: Vec<TypeExpr>)
    ensures
        type_views(copy@) == type_views(types@),
    decreases types,
{
    let mut copy: Vec<TypeExpr> = Vec::new();
    let mut i: usize = 0;
    while i < types.len()
        invariant
            i <= types.len(),
            copy@.len() == i,
            type_views(copy@) == type_views(types@.take(i as int)),
        decreases types.len() - i,
    {
        proof {
            assert(decreases_to!(types => types@[i as int]));
        }
        let element = copy_type(&types[i]);
        let ghost before_copy = copy@;
        copy.push(element);
        proof {
            assert(copy@.drop_last() =~= before_copy);
            assert(types@.take(i + 1).drop_last() =~= types@.take(i as int));
        }
        i = i + 1;
    }
    proof {
        assert(types@.take(types.len() as int) =~= types@);
    }
    copy
}

/// The item type of a stream, as its source writes it.
pub struct StreamItemType<'source> {
    pub source: &'source TypeExpr,
}

impl<'source> StreamItemType<'source> {
    pub fn new(source: &'source TypeExpr) -> (item: Self)
        ensures
            item.source == source,
    {
        StreamItemType { source }
    }

    /// The owned form of a type, which a batch of items can hold.
    pub fn owned(source: &TypeExpr) -> (owned: TypeExpr)
        ensures
            type_view(owned) == owned_view(type_view(*source)),
        decreases source,
    {
        match source {
            TypeExpr::Str => TypeExpr::String,
            TypeExpr::Slice(element) => TypeExpr::vec(Self::owned(element)),
            TypeExpr::Vec(element) => TypeExpr::vec(Self::owned(element)),
            TypeExpr::Option(inner) => TypeExpr::option(Self::owned(inner)),
            TypeExpr::Result { ok, err } => TypeExpr::result(Self::owned(ok), Self::owned(err)),
            TypeExpr::Tuple(elements) => TypeExpr::tuple(Self::owned_list(elements)),
            TypeExpr::MapOf { key, value } => TypeExpr::map(Self::owned(key), Self::owned(value)),
            _ => copy_type(source),
        }
    }
}

impl<'source> StreamItemType<'source> {
    /// The owned forms of a list of types.
    pub fn owned_list(types: &Vec<TypeExpr>) -> (owned: Vec<TypeExpr>)
        ensures
            type_views(owned@) == owned_views(type_views(types@)),
        decreases types,
    {
        let mut owned: Vec<TypeExpr> = Vec::new();
        let mut i: usize = 0;
        while i < types.len()
            invariant
                i <= types.len(),
                owned@.len() == i,
                type_views(owned@) == owned_views(type_views(types@.take(i as int))),
            decreases types.len() - i,
        {
            proof {
                assert(decreases_to!(types => types@[i as int]));
            }
            let element = Self::owned(&types[i]);
            let ghost before_owned = owned@;
            owned.push(element);
            proof {
                let before = types@.take(i as int);
                let after = types@.take(i + 1);
                assert(after.drop_last() =~= before);
                assert(owned@.drop_last() =~= before_owned);
                assert(type_views(after).drop_last() =~= type_views(before));
            }
            i = i + 1;
        }
        proof {
            assert(types@.take(types.len() as int) =~= types@);
        }
        owned
    }
}

/// A stream and the class that declares it, with the owner each names in
/// the source and in the binding.
pub struct Renderer {
    pub source_owner: Option<ClassId>,
    pub source_class: ClassId,
    pub lowered_owner: Option<ClassId>,
    pub lowered_class: ClassId,
}

/// Whether an optional owner names `class`.
pub open spec fn names_class(owner: Option<ClassId>, class: ClassId) -> bool {
    owner matches Some(id) && id.0@ == class.0@
}

fn owner_is(owner: &Option<ClassId>, class: &ClassId) -> (is: bool)
    ensures
        is == names_class(*owner, *class),
{
    match owner {
        Some(id) => text_eq(id.0.as_str(), class.0.as_str()),
        None => false,
    }
}

impl Renderer {
    /// Checks that the stream belongs to the class it is rendered with, in
    /// the source first and then in the binding.
    pub fn validate_owner(&self) -> (result: Result<(), ExpansionError>)
        ensures
            !names_class(self.source_owner, self.source_class) ==> (result matches Err(error)
                && error@ == ExpansionErrorView::SourceSyntaxMismatch(
                "source stream owner does not match source class"@,
            )),
            names_class(self.source_owner, self.source_class) && !names_class(
                self.lowered_owner,
                self.lowered_class,
            ) ==> (result matches Err(error) && error@ == ExpansionErrorView::SourceSyntaxMismatch(
                "lowered stream owner does not match lowered class"@,
            )),
            names_class(self.source_owner, self.source_class) && names_class(
                self.lowered_owner,
                self.lowered_class,
            ) ==> result is Ok,
    {
        if !owner_is(&self.source_owner, &self.source_class) {
            return Err(
                ExpansionError::SourceSyntaxMismatch(
                    "source stream owner does not match source class",
                ),
            );
        }
        if !owner_is(&self.lowered_owner, &self.lowered_class) {
            return Err(
                ExpansionError::SourceSyntaxMismatch(
                    "lowered stream owner does not match lowered class",
                ),
            );
        }
        Ok(())
    }
}

/// The owning class's name, written as an identifier.
pub fn class_ident(name: &str) -> (checked: Result<String, ExpansionError>)
    ensures
        checked_view(checked) == accepted(
            name@,
            parses_as_ident(name@),
            "source class name is not a Rust identifier"@,
        ),
{
    checked_ident(name, "source class name is not a Rust identifier")
}

/// The stream's method name, written as an identifier.
pub fn method_ident(name: &str) -> (checked: Result<String, ExpansionError>)
    ensures
        checked_view(checked) == accepted(
            name@,
            parses_as_ident(name@),
            "source stream name is not a Rust identifier"@,
        ),
{
    checked_ident(name, "source stream name is not a Rust identifier")
}

/// How a stream hands its items to the caller.
pub enum StreamItemPlan {
    /// Each item crosses in its own layout, as the binding type `ty`.
    Direct { ty: TypeRef },
    /// A batch crosses encoded. The texts are those of the encoded return:
    /// its return type, the value of an empty batch, and the value of the
    /// batch held in the `items` variable.
    Encoded { return_type: String, empty_value: String, batch_value: String },
}

/// The statement that borrows the subscription behind its handle.
pub open spec fn spec_subscription_ref(item_type: Seq<char>) -> Seq<char> {
    "let subscription = unsafe { &*(subscription_handle as usize as *const ::boltffi::__private::EventSubscription<"@
        + item_type + ">) }; "@
}

fn subscription_ref(item_type: &str) -> (text: String)
    ensures
        text@ == spec_subscription_ref(item_type@),
{
    let mut text = "let subscription = unsafe { &*(subscription_handle as usize as *const ::boltffi::__private::EventSubscription<".to_owned();
    text.append(item_type);
    text.append(">) }; ");
    text
}

/// How a direct stream fills the caller's slots: primitives and records
/// are copied in one batch, any other item is packed one at a time.
pub open spec fn spec_direct_batch(ty: TypeRef, item_type: Seq<char>, output_slots: Seq<char>) -> Seq<char> {
    match ty {
        TypeRef::Primitive(_) | TypeRef::Record(_) =>
            "fn __boltffi_pop_direct_stream_batch<StreamItem>(subscription: &::boltffi::__private::EventSubscription<StreamItem>, output_ptr: *mut <StreamItem as ::boltffi::__private::Passable>::Out, output_capacity: usize) -> usize where StreamItem: ::boltffi::__private::Passable<Out = StreamItem> + Send + 'static { let "@
                + output_slots
                + " = unsafe { ::core::slice::from_raw_parts_mut(output_ptr.cast::<::core::mem::MaybeUninit<StreamItem>>(), output_capacity) }; subscription.pop_batch_into("@
                + output_slots + ") } __boltffi_pop_direct_stream_batch::<"@ + item_type
                + ">(subscription, output_ptr, output_capacity)"@,
        _ => "let "@ + output_slots
            + " = unsafe { ::core::slice::from_raw_parts_mut(output_ptr as *mut ::core::mem::MaybeUninit<<"@
            + item_type + " as ::boltffi::__private::Passable>::Out>, output_capacity) }; "@
            + output_slots
            + ".iter_mut().map_while(|slot| { let item = subscription.pop_event()?; slot.write(<"@
            + item_type + " as ::boltffi::__private::Passable>::pack(item)); Some(()) }).count()"@,
    }
}

fn direct_batch(ty: &TypeRef, item_type: &str, output_slots: &str) -> (text: String)
    ensures
        text@ == spec_direct_batch(*ty, item_type@, output_slots@),
{
    match ty {
        TypeRef::Primitive(_) | TypeRef::Record(_) => {
            let mut text = "fn __boltffi_pop_direct_stream_batch<StreamItem>(subscription: &::boltffi::__private::EventSubscription<StreamItem>, output_ptr: *mut <StreamItem as ::boltffi::__private::Passable>::Out, output_capacity: usize) -> usize where StreamItem: ::boltffi::__private::Passable<Out = StreamItem> + Send + 'static { let ".to_owned();
            text.append(output_slots);
            text.append(" = unsafe { ::core::slice::from_raw_parts_mut(output_ptr.cast::<::core::mem::MaybeUninit<StreamItem>>(), output_capacity) }; subscription.pop_batch_into(");
            text.append(output_slots);
            text.append(") } __boltffi_pop_direct_stream_batch::<");
            text.append(item_type);
            text.append(">(subscription, output_ptr, output_capacity)");
            text
        },
        _ => {
            let mut text = "let ".to_owned();
            text.append(output_slots);
            text.append(" = unsafe { ::core::slice::from_raw_parts_mut(output_ptr as *mut ::core::mem::MaybeUninit<<");
            text.append(item_type);
            text.append(" as ::boltffi::__private::Passable>::Out>, output_capacity) }; ");
            text.append(output_slots);
            text.append(".iter_mut().map_while(|slot| { let item = subscription.pop_event()?; slot.write(<");
            text.append(item_type);
            text.append(" as ::boltffi::__private::Passable>::pack(item)); Some(()) }).count()");
            text
        },
    }
}

/// The export that pops a batch of a stream's items. A direct stream
/// writes up to `output_capacity` items into the caller's buffer and
/// answers how many it wrote, or 0 for a null handle, a null buffer or no
/// room; an encoded stream takes up to `max_count` items and answers them
/// encoded, or the empty value when there are none or no handle.
pub open spec fn spec_pop_batch(
    plan: StreamItemPlan,
    symbol: Seq<char>,
    item_type: Seq<char>,
    handle_type: Seq<char>,
    handle_zero: Seq<char>,
    items: Seq<char>,
    output_slots: Seq<char>,
) -> Seq<char> {
    match plan {
        StreamItemPlan::Direct { ty } => symbol + "(subscription_handle: "@ + handle_type
            + ", output_ptr: *mut <"@ + item_type
            + " as ::boltffi::__private::Passable>::Out, output_capacity: usize) -> usize { if subscription_handle == "@
            + handle_zero
            + " || output_ptr.is_null() || output_capacity == 0 { return 0; } "@
            + spec_subscription_ref(item_type) + spec_direct_batch(ty, item_type, output_slots)
            + " }"@,
        StreamItemPlan::Encoded { return_type, empty_value, batch_value } => symbol
            + "(subscription_handle: "@ + handle_type + ", max_count: usize) "@ + return_type@
            + " { if subscription_handle == "@ + handle_zero + " || max_count == 0 { return "@
            + empty_value@ + "; } "@ + spec_subscription_ref(item_type) + "let "@ + items
            + ": Vec<"@ + item_type
            + "> = ::core::iter::from_fn(|| subscription.pop_event()).take(max_count).collect(); if "@
            + items + ".is_empty() { "@ + empty_value@ + " } else { "@ + batch_value@ + " } }"@,
    }
}

/// Writes the export that pops a batch of a stream's items; see
/// [`spec_pop_batch`].
pub fn pop_batch(
    plan: &StreamItemPlan,
    symbol: &str,
    item_type: &str,
    handle_type: &str,
    handle_zero: &str,
    items: &str,
    output_slots: &str,
) -> (text: String)
    ensures
        text@ == spec_pop_batch(
            *plan,
            symbol@,
            item_type@,
            handle_type@,
            handle_zero@,
            items@,
            output_slots@,
        ),
{
    let mut text = symbol.to_owned();
    match plan {
        StreamItemPlan::Direct { ty } => {
            text.append("(subscription_handle: ");
            text.append(handle_type);
            text.append(", output_ptr: *mut <");
            text.append(item_type);
            text.append(" as ::boltffi::__private::Passable>::Out, output_capacity: usize) -> usize { if subscription_handle == ");
            text.append(handle_zero);
            text.append(" || output_ptr.is_null() || output_capacity == 0 { return 0; } ");
            let borrow = subscription_ref(item_type);
            text.append(borrow.as_str());
            let body = direct_batch(ty, item_type, output_slots);
            text.append(body.as_str());
            text.append(" }");
        },
        StreamItemPlan::Encoded { return_type, empty_value, batch_value } => {
            text.append("(subscription_handle: ");
            text.append(handle_type);
            text.append(", max_count: usize) ");
            text.append(return_type.as_str());
            text.append(" { if subscription_handle == ");
            text.append(handle_zero);
            text.append(" || max_count == 0 { return ");
            text.append(empty_value.as_str());
            text.append("; } ");
            let borrow = subscription_ref(item_type);
            text.append(borrow.as_str());
            text.append("let ");
            text.append(items);
            text.append(": Vec<");
            text.append(item_type);
            text.append("> = ::core::iter::from_fn(|| subscription.pop_event()).take(max_count).collect(); if ");
            text.append(items);
            text.append(".is_empty() { ");
            text.append(empty_value.as_str());
            text.append(" } else { ");
            text.append(batch_value.as_str());
            text.append(" } }");
        },
    }
    text
}

/// The names the subscribe export is written with: the owning class and
/// the stream's method, the handle type of the class, the receiver
/// argument and its handle local, and the stream handle's type and zero.
pub struct SubscribeExport {
    pub class: String,
    pub method: String,
    pub handle_type: String,
    pub receiver: String,
    pub receiver_handle: String,
    pub stream_handle_type: String,
    pub stream_handle_zero: String,
}

/// The export that subscribes to a stream: a null receiver gives the null
/// stream handle; otherwise the class is borrowed from its handle, the
/// stream method is called, and the subscription is handed out as a raw
/// `Arc`. The receiver arrives in the class handle carrier `carrier_type`,
/// whose null value is `carrier_zero`.
pub open spec fn spec_subscribe(
    symbol: Seq<char>,
    carrier_type: Seq<char>,
    carrier_zero: Seq<char>,
    export: SubscribeExport,
) -> Seq<char> {
    symbol + "("@ + export.receiver@ + ": "@ + carrier_type + ") -> "@
        + export.stream_handle_type@ + " { if "@ + export.receiver@ + " == "@ + carrier_zero
        + " { return "@ + export.stream_handle_zero@ + "; } let "@ + export.receiver_handle@
        + " = "@ + export.receiver@ + " as usize as *mut "@ + export.handle_type@ + "; let "@
        + export.receiver@ + ": &"@ + export.class@ + " = unsafe { "@ + export.handle_type@
        + "::shared("@ + export.receiver_handle@ + ") }; let subscription = "@
        + export.receiver@ + "."@ + export.method@
        + "(); ::std::sync::Arc::into_raw(subscription) as usize as "@
        + export.stream_handle_type@ + " }"@
}

/// Writes the export that subscribes to a stream; see [`spec_subscribe`].
pub fn subscribe(symbol: &str, carrier_type: &str, carrier_zero: &str, export: &SubscribeExport) -> (text: String)
    ensures
        text@ == spec_subscribe(symbol@, carrier_type@, carrier_zero@, *export),
{
    let mut text = symbol.to_owned();
    text.append("(");
    text.append(export.receiver.as_str());
    text.append(": ");
    text.append(carrier_type);
    text.append(") -> ");
    text.append(export.stream_handle_type.as_str());
    text.append(" { if ");
    text.append(export.receiver.as_str());
    text.append(" == ");
    text.append(carrier_zero);
    text.append(" { return ");
    text.append(export.stream_handle_zero.as_str());
    text.append("; } let ");
    text.append(export.receiver_handle.as_str());
    text.append(" = ");
    text.append(export.receiver.as_str());
    text.append(" as usize as *mut ");
    text.append(export.handle_type.as_str());
    text.append("; let ");
    text.append(export.receiver.as_str());
    text.append(": &");
    text.append(export.class.as_str());
    text.append(" = unsafe { ");
    text.append(export.handle_type.as_str());
    text.append("::shared(");
    text.append(export.receiver_handle.as_str());
    text.append(") }; let subscription = ");
    text.append(export.receiver.as_str());
    text.append(".");
    text.append(export.method.as_str());
    text.append("(); ::std::sync::Arc::into_raw(subscription) as usize as ");
    text.append(export.stream_handle_type.as_str());
    text.append(" }");
    text
}

/// The exported symbols of a stream.
pub struct StreamSymbols {
    pub subscribe: String,
    pub pop_batch: String,
    pub wait: String,
    pub poll: String,
    pub unsubscribe: String,
    pub free: String,
}

/// What every export of a stream starts with: the target's `cfg`
/// attribute, `no_mangle`, and the `extern "C"` function keyword.
pub open spec fn spec_export_head(cfg: Seq<char>) -> Seq<char> {
    cfg + " #[unsafe(no_mangle)] pub unsafe extern \"C\" fn "@
}

/// The export that waits for events, answering unsubscribed for a null
/// handle.
pub open spec fn spec_wait(symbol: Seq<char>, item_type: Seq<char>, handle_type: Seq<char>, handle_zero: Seq<char>) -> Seq<char> {
    symbol + "(subscription_handle: "@ + handle_type
        + ", timeout_milliseconds: u32) -> i32 { if subscription_handle == "@ + handle_zero
        + " { return ::boltffi::__private::WaitResult::Unsubscribed as i32; } "@
        + spec_subscription_ref(item_type)
        + "subscription.wait_for_events(timeout_milliseconds) as i32 }"@
}

/// The export that polls for events, answering closed for a null handle.
pub open spec fn spec_poll(symbol: Seq<char>, item_type: Seq<char>, handle_type: Seq<char>, handle_zero: Seq<char>) -> Seq<char> {
    symbol + "(subscription_handle: "@ + handle_type
        + ", callback_data: u64, callback: ::boltffi::__private::StreamContinuationCallback) { if subscription_handle == "@
        + handle_zero
        + " { callback(callback_data, ::boltffi::__private::StreamPollResult::Closed); return; } "@
        + spec_subscription_ref(item_type) + "subscription.poll(callback_data, callback); }"@
}

/// The export that unsubscribes, doing nothing for a null handle.
pub open spec fn spec_unsubscribe(symbol: Seq<char>, item_type: Seq<char>, handle_type: Seq<char>, handle_zero: Seq<char>) -> Seq<char> {
    symbol + "(subscription_handle: "@ + handle_type + ") { if subscription_handle == "@
        + handle_zero + " { return; } "@ + spec_subscription_ref(item_type)
        + "subscription.unsubscribe(); }"@
}

/// The export that frees the subscription, doing nothing for a null
/// handle.
pub open spec fn spec_free(symbol: Seq<char>, item_type: Seq<char>, handle_type: Seq<char>, handle_zero: Seq<char>) -> Seq<char> {
    symbol + "(subscription_handle: "@ + handle_type + ") { if subscription_handle == "@
        + handle_zero
        + " { return; } drop(unsafe { ::std::sync::Arc::from_raw(subscription_handle as usize as *const ::boltffi::__private::EventSubscription<"@
        + item_type + ">) }); }"@
}

/// The six exports of a stream, in order: subscribe, pop a batch, wait,
/// poll, unsubscribe and free; `subscribe` and `pop_batch` are the texts
/// of the first two after the function keyword.
pub open spec fn spec_exports(
    cfg: Seq<char>,
    symbols: StreamSymbols,
    subscribe: Seq<char>,
    pop_batch: Seq<char>,
    item_type: Seq<char>,
    handle_type: Seq<char>,
    handle_zero: Seq<char>,
) -> Seq<char> {
    let head = spec_export_head(cfg);
    head + subscribe + " "@ + head + pop_batch + " "@ + head + spec_wait(
        symbols.wait@,
        item_type,
        handle_type,
        handle_zero,
    ) + " "@ + head + spec_poll(symbols.poll@, item_type, handle_type, handle_zero) + " "@ + head
        + spec_unsubscribe(symbols.unsubscribe@, item_type, handle_type, handle_zero) + " "@ + head
        + spec_free(symbols.free@, item_type, handle_type, handle_zero)
}

fn wait_text(symbol: &str, item_type: &str, handle_type: &str, handle_zero: &str) -> (text: String)
    ensures
        text@ == spec_wait(symbol@, item_type@, handle_type@, handle_zero@),
{
    let mut text = symbol.to_owned();
    text.append("(subscription_handle: ");
    text.append(handle_type);
    text.append(", timeout_milliseconds: u32) -> i32 { if subscription_handle == ");
    text.append(handle_zero);
    text.append(" { return ::boltffi::__private::WaitResult::Unsubscribed as i32; } ");
    let borrow = subscription_ref(item_type);
    text.append(borrow.as_str());
    text.append("subscription.wait_for_events(timeout_milliseconds) as i32 }");
    text
}

fn poll_text(symbol: &str, item_type: &str, handle_type: &str, handle_zero: &str) -> (text: String)
    ensures
        text@ == spec_poll(symbol@, item_type@, handle_type@, handle_zero@),
{
    let mut text = symbol.to_owned();
    text.append("(subscription_handle: ");
    text.append(handle_type);
    text.append(", callback_data: u64, callback: ::boltffi::__private::StreamContinuationCallback) { if subscription_handle == ");
    text.append(handle_zero);
    text.append(" { callback(callback_data, ::boltffi::__private::StreamPollResult::Closed); return; } ");
    let borrow = subscription_ref(item_type);
    text.append(borrow.as_str());
    text.append("subscription.poll(callback_data, callback); }");
    text
}

fn unsubscribe_text(symbol: &str, item_type: &str, handle_type: &str, handle_zero: &str) -> (text: String)
    ensures
        text@ == spec_unsubscribe(symbol@, item_type@, handle_type@, handle_zero@),
{
    let mut text = symbol.to_owned();
    text.append("(subscription_handle: ");
    text.append(handle_type);
    text.append(") { if subscription_handle == ");
    text.append(handle_zero);
    text.append(" { return; } ");
    let borrow = subscription_ref(item_type);
    text.append(borrow.as_str());
    text.append("subscription.unsubscribe(); }");
    text
}

fn free_text(symbol: &str, item_type: &str, handle_type: &str, handle_zero: &str) -> (text: String)
    ensures
        text@ == spec_free(symbol@, item_type@, handle_type@, handle_zero@),
{
    let mut text = symbol.to_owned();
    text.append("(subscription_handle: ");
    text.append(handle_type);
    text.append(") { if subscription_handle == ");
    text.append(handle_zero);
    text.append(" { return; } drop(unsafe { ::std::sync::Arc::from_raw(subscription_handle as usize as *const ::boltffi::__private::EventSubscription<");
    text.append(item_type);
    text.append(">) }); }");
    text
}

/// Writes the six exports of a stream; see [`spec_exports`].
pub fn exports(
    cfg: &str,
    symbols: &StreamSymbols,
    subscribe: &str,
    pop_batch: &str,
    item_type: &str,
    handle_type: &str,
    handle_zero: &str,
) -> (text: String)
    ensures
        text@ == spec_exports(cfg@, *symbols, subscribe@, pop_batch@, item_type@, handle_type@, handle_zero@),
{
    let mut head = cfg.to_owned();
    head.append(" #[unsafe(no_mangle)] pub unsafe extern \"C\" fn ");
    let mut text = head.clone();
    text.append(subscribe);
    text.append(" ");
    text.append(head.as_str());
    text.append(pop_batch);
    text.append(" ");
    text.append(head.as_str());
    let wait = wait_text(symbols.wait.as_str(), item_type, handle_type, handle_zero);
    text.append(wait.as_str());
    text.append(" ");
    text.append(head.as_str());
    let poll = poll_text(symbols.poll.as_str(), item_type, handle_type, handle_zero);
    text.append(poll.as_str());
    text.append(" ");
    text.append(head.as_str());
    let unsubscribe = unsubscribe_text(symbols.unsubscribe.as_str(), item_type, handle_type, handle_zero);
    text.append(unsubscribe.as_str());
    text.append(" ");
    text.append(head.as_str());
    let free = free_text(symbols.free.as_str(), item_type, handle_type, handle_zero);
    text.append(free.as_str());
    text
}

impl Renderer {
    /// The exports of a stream of the class it is rendered with: the owner
    /// is checked first, then subscribe, pop-batch, wait, poll,
    /// unsubscribe and free are written.
    pub fn render(
        &self,
        cfg: &str,
        symbols: &StreamSymbols,
        carrier_type: &str,
        carrier_zero: &str,
        export: &SubscribeExport,
        plan: &StreamItemPlan,
        item_type: &str,
        items: &str,
        output_slots: &str,
    ) -> (result: Result<String, ExpansionError>)
        ensures
            match result {
                Ok(text) => names_class(self.source_owner, self.source_class) && names_class(
                    self.lowered_owner,
                    self.lowered_class,
                ) && text@ == spec_exports(
                    cfg@,
                    *symbols,
                    spec_subscribe(symbols.subscribe@, carrier_type@, carrier_zero@, *export),
                    spec_pop_batch(
                        *plan,
                        symbols.pop_batch@,
                        item_type@,
                        export.stream_handle_type@,
                        export.stream_handle_zero@,
                        items@,
                        output_slots@,
                    ),
                    item_type@,
                    export.stream_handle_type@,
                    export.stream_handle_zero@,
                ),
                Err(error) => !(names_class(self.source_owner, self.source_class) && names_class(
                    self.lowered_owner,
                    self.lowered_class,
                )) && error@ == ExpansionErrorView::SourceSyntaxMismatch(
                    if !names_class(self.source_owner, self.source_class) {
                        "source stream owner does not match source class"@
                    } else {
                        "lowered stream owner does not match lowered class"@
                    },
                ),
            },
    {
        match self.validate_owner() {
            Ok(()) => {},
            Err(error) => return Err(error),
        }
        let subscribe_text = subscribe(symbols.subscribe.as_str(), carrier_type, carrier_zero, export);
        let pop = pop_batch(
            plan,
            symbols.pop_batch.as_str(),
            item_type,
            export.stream_handle_type.as_str(),
            export.stream_handle_zero.as_str(),
            items,
            output_slots,
        );
        Ok(
            exports(
                cfg,
                symbols,
                subscribe_text.as_str(),
                pop.as_str(),
                item_type,
                export.stream_handle_type.as_str(),
                export.stream_handle_zero.as_str(),
            ),
        )
    }
}

/// The null check a handle export starts its body with: when the handle
/// equals the null value `zero` it does `on_null` and nothing else.
pub open spec fn null_guard(zero: Seq<char>, on_null: Seq<char>) -> Seq<char> {
    "if subscription_handle == "@ + zero + " { "@ + on_null + " } "@
}

/// Every export that takes a subscription handle first checks it against
/// the null handle with the same guard, which returns early exactly when
/// the handle equals `zero`: waiting answers unsubscribed, polling answers
/// closed, unsubscribing and freeing do nothing. Only past the guard is
/// the handle turned into the subscription, which unsubscribing then
/// unsubscribes and freeing drops.
pub proof fn lemma_handle_exports_guard_the_null_handle(
    symbol: Seq<char>,
    item_type: Seq<char>,
    handle_type: Seq<char>,
    zero: Seq<char>,
)
    ensures
        spec_unsubscribe(symbol, item_type, handle_type, zero) == symbol + "(subscription_handle: "@
            + handle_type + ") { "@ + null_guard(zero, "return;"@) + spec_subscription_ref(item_type)
            + "subscription.unsubscribe(); }"@,
        spec_free(symbol, item_type, handle_type, zero) == symbol + "(subscription_handle: "@
            + handle_type + ") { "@ + null_guard(zero, "return;"@)
            + "drop(unsafe { ::std::sync::Arc::from_raw(subscription_handle as usize as *const ::boltffi::__private::EventSubscription<"@
            + item_type + ">) }); }"@,
        spec_wait(symbol, item_type, handle_type, zero) == symbol + "(subscription_handle: "@
            + handle_type + ", timeout_milliseconds: u32) -> i32 { "@ + null_guard(
            zero,
            "return ::boltffi::__private::WaitResult::Unsubscribed as i32;"@,
        ) + spec_subscription_ref(item_type) + "subscription.wait_for_events(timeout_milliseconds) as i32 }"@,
        spec_poll(symbol, item_type, handle_type, zero) == symbol + "(subscription_handle: "@
            + handle_type
            + ", callback_data: u64, callback: ::boltffi::__private::StreamContinuationCallback) { "@
            + null_guard(
            zero,
            "callback(callback_data, ::boltffi::__private::StreamPollResult::Closed); return;"@,
        ) + spec_subscription_ref(item_type) + "subscription.poll(callback_data, callback); }"@,
{
    reveal_strlit("(subscription_handle: ");
    reveal_strlit(") { if subscription_handle == ");
    reveal_strlit(") { ");
    reveal_strlit("if subscription_handle == ");
    reveal_strlit(" { ");
    reveal_strlit(" } ");
    reveal_strlit(" { return; } ");
    reveal_strlit("return;");
    reveal_strlit(", timeout_milliseconds: u32) -> i32 { if subscription_handle == ");
    reveal_strlit(", timeout_milliseconds: u32) -> i32 { ");
    reveal_strlit(" { return ::boltffi::__private::WaitResult::Unsubscribed as i32; } ");
    reveal_strlit("return ::boltffi::__private::WaitResult::Unsubscribed as i32;");
    reveal_strlit(", callback_data: u64, callback: ::boltffi::__private::StreamContinuationCallback) { if subscription_handle == ");
    reveal_strlit(", callback_data: u64, callback: ::boltffi::__private::StreamContinuationCallback) { ");
    reveal_strlit(" { callback(callback_data, ::boltffi::__private::StreamPollResult::Closed); return; } ");
    reveal_strlit("callback(callback_data, ::boltffi::__private::StreamPollResult::Closed); return;");
    reveal_strlit(" { return; } drop(unsafe { ::std::sync::Arc::from_raw(subscription_handle as usize as *const ::boltffi::__private::EventSubscription<");
    reveal_strlit("drop(unsafe { ::std::sync::Arc::from_raw(subscription_handle as usize as *const ::boltffi::__private::EventSubscription<");
    assert(spec_unsubscribe(symbol, item_type, handle_type, zero) =~= symbol + "(subscription_handle: "@
        + handle_type + ") { "@ + null_guard(zero, "return;"@) + spec_subscription_ref(item_type)
        + "subscription.unsubscribe(); }"@);
    assert(spec_free(symbol, item_type, handle_type, zero) =~= symbol + "(subscription_handle: "@
        + handle_type + ") { "@ + null_guard(zero, "return;"@)
        + "drop(unsafe { ::std::sync::Arc::from_raw(subscription_handle as usize as *const ::boltffi::__private::EventSubscription<"@
        + item_type + ">) }); }"@);
    assert(spec_wait(symbol, item_type, handle_type, zero) =~= symbol + "(subscription_handle: "@
        + handle_type + ", timeout_milliseconds: u32) -> i32 { "@ + null_guard(
        zero,
        "return ::boltffi::__private::WaitResult::Unsubscribed as i32;"@,
    ) + spec_subscription_ref(item_type) + "subscription.wait_for_events(timeout_milliseconds) as i32 }"@);
    assert(spec_poll(symbol, item_type, handle_type, zero) =~= symbol + "(subscription_handle: "@
        + handle_type
        + ", callback_data: u64, callback: ::boltffi::__private::StreamContinuationCallback) { "@
        + null_guard(
        zero,
        "callback(callback_data, ::boltffi::__private::StreamPollResult::Closed); return;"@,
    ) + spec_subscription_ref(item_type) + "subscription.poll(callback_data, callback); }"@);
}

} // verus!
