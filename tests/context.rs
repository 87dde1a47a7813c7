use anyerr::context::map::{MapContext, MapEntry, StringKeyStringMapEntry, StringMapContext};
use anyerr::context::{
    AbstractContext, AnyContext, AnyMapContext, CommonIter, Context, Entry, OptionContext,
    OptionEntry, SingletonContext, StringKeyAnyMapContext,
};
use anyerr::converter::{BoxConverter, Convertable, DebugConverter, IntoConverter};
use anyerr::context::StringKeyStringMapContext;
use anyerr::foreign::BoxedValue;
use anyerr::kind::NoErrorKind;
use anyerr::AnyError;

type OptionTestEntry = OptionEntry<String, str>;
type OptionTestContext = OptionContext<OptionTestEntry>;

#[test]
fn option_entry_getter_succeeds() {
    let entry = OptionTestEntry::new((), "test");
    assert_eq!(entry.value(), "test");
}

#[test]
fn option_context_operations_succeeds() {
    let mut ctx = OptionTestContext::new();
    assert!(ctx.get(&()).is_none());

    ctx.insert((), "test");
    assert_eq!(ctx.get(&()).unwrap(), "test");
    ctx.insert((), "test1");
    assert_eq!(ctx.get(&()).unwrap(), "test1");
}

#[test]
fn option_iter_next_succeeds() {
    let mut ctx = OptionTestContext::new();
    let mut iter = ctx.iter();
    assert_eq!(iter.next(), None);

    ctx.insert((), "test");
    let mut iter = ctx.iter();
    assert_eq!(iter.next().unwrap().value(), "test");
    assert_eq!(iter.next(), None);
}

#[test]
fn option_iter_compose_succeeds() {
    let mut ctx1 = OptionTestContext::new();
    ctx1.insert((), "test1");
    let mut ctx2 = OptionTestContext::new();
    ctx2.insert((), "test2");

    let mut iter = ctx1.iter().compose(ctx2.iter());
    assert_eq!(iter.next().unwrap().value(), "test1");
    assert_eq!(iter.next().unwrap().value(), "test2");
    assert_eq!(iter.next(), None);
}

#[test]
fn singleton_value_follows_the_last_insertion() {
    let mut ctx = OptionTestContext::new();
    assert_eq!(ctx.value(), None);
    ctx.insert((), "context");
    assert_eq!(ctx.value().map(|v| v.as_str()), Some("context"));
    ctx.insert((), "context2");
    assert_eq!(ctx.value().map(|v| v.as_str()), Some("context2"));
    assert_eq!(ctx.iter().count(), 1);
}

#[test]
fn converter_converter_convert_succeeds() {
    assert_eq!(<_ as Convertable<DebugConverter, String>>::to(1), "1");
    assert_eq!(<_ as Convertable<DebugConverter, String>>::to("1"), r#""1""#);

    assert_eq!(
        <_ as Convertable<IntoConverter, String>>::to("str"),
        String::from("str")
    );

    let res = <_ as Convertable<BoxConverter, BoxedValue>>::to("1");
    assert_eq!(res.debug_text(), "\"1\"");
}

#[test]
fn any_any_value_rtti_succeeds() {
    let x = BoxedValue::new(String::from("any value"));
    assert!(x.is::<String>() && !x.is::<i32>());
    assert_eq!(x.downcast_ref::<String>().unwrap(), "any value");
}

#[test]
fn any_any_value_debug_succeeds() {
    let x = BoxedValue::new(String::from("any value"));
    assert_eq!(x.debug_text(), "\"any value\"");
}

#[test]
fn string_map_string_map_context_operation_succeeds() {
    let mut context = StringKeyStringMapContext::new();
    context.insert("key1", "1");
    context.insert_with::<DebugConverter, _, _>("key2", 2);
    context.insert_with::<DebugConverter, _, _>("key3", "3");
    assert_eq!(context.get("key1").unwrap(), "1");
    assert_eq!(context.get("key2").unwrap(), "2");
    assert_eq!(context.get("key3").unwrap(), "\"3\"");
}

type TestEntry = MapEntry<String, str, String, str>;
type TestContext = MapContext<TestEntry, DebugConverter>;

#[test]
fn map_string_entry_getter_succeeds() {
    let entry = TestEntry::new("key", "1");
    assert_eq!("key", entry.key());
    assert_eq!("1", entry.value());
}

#[test]
fn map_string_map_context_operation_succeeds() {
    let mut context = TestContext::new();
    context.insert("key1", "1");
    context.insert_with::<DebugConverter, _, _>("key2", 2);
    context.insert_with::<DebugConverter, _, _>("key3", "3");
    assert_eq!(context.get("key1").unwrap(), "1");
    assert_eq!(context.get("key2").unwrap(), "2");
    assert_eq!(context.get("key3").unwrap(), "\"3\"");
}

#[test]
fn map_string_map_context_iter_from_succeeds() {
    let context = TestContext::from(vec![
        TestEntry::new("key1", "1"),
        TestEntry::new("key2", "2"),
    ]);
    let mut iter = context.iter();
    assert_eq!(Some(&TestEntry::new("key1", "1")), iter.next());
    assert_eq!(Some(&TestEntry::new("key2", "2")), iter.next());
    assert_eq!(None, iter.next());
}

#[test]
fn map_string_map_context_iter_concat_succeeds() {
    let context1 = TestContext::from(vec![
        TestEntry::new("key1", "1"),
        TestEntry::new("key2", "2"),
    ]);
    let context2 = TestContext::from(vec![
        TestEntry::new("key3", "3"),
        TestEntry::new("key4", "4"),
    ]);
    let mut iter = context1.iter().compose(context2.iter());
    assert_eq!(Some(&TestEntry::new("key1", "1")), iter.next());
    assert_eq!(Some(&TestEntry::new("key2", "2")), iter.next());
    assert_eq!(Some(&TestEntry::new("key3", "3")), iter.next());
    assert_eq!(Some(&TestEntry::new("key4", "4")), iter.next());
    assert_eq!(None, iter.next());
}

#[test]
fn string_map_string_entry_getter_succeeds() {
    {
        let entry = StringKeyStringMapEntry::new("key", "1");
        assert_eq!("key", entry.key());
        assert_eq!("1", entry.value());
    }
    {
        let entry = StringKeyStringMapEntry::new("key", "&str value");
        assert_eq!("key", entry.key());
        assert_eq!("&str value", entry.value());
    }
    {
        let entry = StringKeyStringMapEntry::new("key", &String::from("String value"));
        assert_eq!("key", entry.key());
        assert_eq!("String value", entry.value());
    }
}

#[test]
fn string_entry_to_string_succeeds() {
    {
        let entry = StringKeyStringMapEntry::new("key", "1");
        assert_eq!("key = 1", entry.to_string());
    }
    {
        let entry = StringKeyStringMapEntry::new("key", "&str value");
        assert_eq!("key = &str value", entry.to_string());
    }

    {
        let entry = StringKeyStringMapEntry::new("key", &String::from("String value"));
        assert_eq!("key = String value", entry.to_string());
    }
}

#[test]
fn string_map_string_map_context_iter_from_succeeds() {
    let context: StringMapContext<String, str> = StringMapContext::from(vec![
        StringKeyStringMapEntry::new("key1", "1"),
        StringKeyStringMapEntry::new("key2", "2"),
    ]);
    let mut iter = context.iter();
    assert_eq!(
        Some(&StringKeyStringMapEntry::new("key1", "1")),
        iter.next()
    );
    assert_eq!(
        Some(&StringKeyStringMapEntry::new("key2", "2")),
        iter.next()
    );
    assert_eq!(None, iter.next());
}

#[test]
fn string_map_string_map_context_iter_concat_succeeds() {
    let context1: StringMapContext<String, str> = StringMapContext::from(vec![
        StringKeyStringMapEntry::new("key1", "1"),
        StringKeyStringMapEntry::new("key2", "2"),
    ]);
    let context2: StringMapContext<String, str> = StringMapContext::from(vec![
        StringKeyStringMapEntry::new("key3", "3"),
        StringKeyStringMapEntry::new("key4", "4"),
    ]);
    let mut iter = context2.iter().concat(&context1);
    assert_eq!(
        Some(&StringKeyStringMapEntry::new("key1", "1")),
        iter.next()
    );
    assert_eq!(
        Some(&StringKeyStringMapEntry::new("key2", "2")),
        iter.next()
    );
    assert_eq!(
        Some(&StringKeyStringMapEntry::new("key3", "3")),
        iter.next()
    );
    assert_eq!(
        Some(&StringKeyStringMapEntry::new("key4", "4")),
        iter.next()
    );
    assert_eq!(None, iter.next());
}

#[test]
fn list_lookup_returns_the_first_of_duplicate_keys() {
    let mut context = TestContext::new();
    context.insert("key", "first");
    context.insert("key", "second");
    assert_eq!(context.get("key"), Some("first"));
    assert_eq!(context.get("missing"), None);
    assert_eq!(context.iter().count(), 2);
}

#[test]
fn empty_iterators_compose_to_nothing() {
    let empty: CommonIter<'_, TestEntry> = CommonIter::new();
    let context = TestContext::from(vec![TestEntry::new("k", "v")]);
    assert!(empty.is_empty());
    let composed = CommonIter::new().compose(context.iter()).compose(CommonIter::new());
    assert_eq!(composed.to_vec(), vec![&TestEntry::new("k", "v")]);
}

#[test]
fn list_from_pairs_keeps_order() {
    let context = TestContext::from(vec![("a", "1"), ("b", "2")]);
    let keys: Vec<&str> = context.iter().to_vec().into_iter().map(|e| e.key()).collect();
    assert_eq!(keys, vec!["a", "b"]);
}

type AnyTestContext = AnyMapContext<&'static str, str>;

#[test]
fn any_map_context_operation() {
    let mut ctx = AnyTestContext::new();
    ctx.insert_with::<BoxConverter, _, _>("i32", 1i32);
    ctx.insert_with::<BoxConverter, _, _>("string", "test");
    assert_eq!(ctx.value_as::<i32, _>("i32"), Some(&1i32));
    assert_eq!(ctx.value_as::<&str, _>("string"), Some(&"test"));
    assert_eq!(ctx.value_as::<(), _>("i32"), None);
    assert_eq!(ctx.value_as::<(), _>("string"), None);
}

#[test]
fn boxed_values_keep_their_debug_text() {
    let mut ctx = AnyTestContext::new();
    ctx.insert_with::<BoxConverter, _, _>("name", String::from("any value"));
    let value = ctx.get("name").unwrap();
    assert!(value.is::<String>() && !value.is::<i32>());
    assert_eq!(value.downcast_ref::<String>().unwrap(), "any value");
    assert_eq!(value.debug_text(), "\"any value\"");
    assert!(ctx.get("other").is_none());
}

#[test]
fn error_value_as_reads_typed_context() {
    let err = AnyError::<StringKeyAnyMapContext, NoErrorKind>::builder()
        .message("an unknown error occurred")
        .context("error-code", 42u32)
        .context("timeout", false)
        .build();
    assert_eq!(err.value_as::<u32, _>("error-code"), Some(&42u32));
    assert_eq!(err.value_as::<bool, _>("timeout"), Some(&false));
    assert_eq!(err.value_as::<bool, _>("error-code"), None);
}
