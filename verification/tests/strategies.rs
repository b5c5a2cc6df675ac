use dst_init::{
    Arena, BoxExt, Coerced, CoercionInitializer, CompositeInitializer,
    DirectInitializer, EmplaceInitializer, Handle, Layout, Memory, Metadata, RawInitializer,
    SliceFnInitializer, SliceIterInitializer, Unsize,
};
use std::fmt::{Debug, Formatter};

#[derive(Debug)]
struct TestHeader<A, B, C> {
    a: A,
    b: B,
    c: C,
}

fn place_boxed<O, Init: EmplaceInitializer<Output = O>>(init: Init) -> Box<Handle<O>> {
    let region = Memory::new(0x1000, 1 << 20).unwrap();
    let mut arena = Arena::new(region);
    match Box::emplace(&mut arena, init) {
        Ok(owner) => owner,
        Err(_) => panic!("no memory"),
    }
}

#[test]
fn test() {
    let t = CompositeInitializer {
        header: TestHeader { a: 1usize, b: 1u8, c: 1u8 },
        tail: SliceIterInitializer::new(3, (0..).map(|i| (i as u8, i as usize))),
    };
    let u = CompositeInitializer { header: 1usize, tail: t };
    let a = place_boxed(u);
    println!("{:?}", a);
    assert_eq!(a.get().header, 1usize);
    let inner = a.get().tail.get();
    assert_eq!(inner.header.a, 1);
    assert_eq!(inner.header.b, 1);
    assert_eq!(inner.header.c, 1);
    assert_eq!(inner.tail.get(), &vec![(0u8, 0usize), (1, 1), (2, 2)]);
}

#[derive(PartialEq, Copy, Clone)]
pub struct FstStruct {
    a: u8,
    b: usize,
    c: f64,
}

impl Debug for FstStruct {
    fn fmt(&self, f: &mut Formatter<'_>) -> std::fmt::Result {
        f.write_str(&format!("{},{},{}", self.a, self.b, self.c))
    }
}

impl Unsize<dyn Debug> for FstStruct {
    fn metadata_spec() -> Metadata {
        Metadata::Dispatch(Layout::new::<FstStruct>())
    }

    fn upcasts_to(&self, _target: &(dyn Debug + 'static)) -> bool {
        true
    }

    fn metadata() -> Metadata {
        Metadata::Dispatch(Layout::new::<FstStruct>())
    }

    fn upcast(&self) -> &(dyn Debug + 'static) {
        self
    }
}

#[allow(dead_code)]
#[derive(Debug)]
pub struct DstStruct<Data: Debug + ?Sized> {
    a: u8,
    b: usize,
    c: u8,
    d: Data,
}

impl Unsize<DstStruct<[usize]>> for DstStruct<[usize; 3]> {
    fn metadata_spec() -> Metadata {
        Metadata::Length(3)
    }

    fn upcasts_to(&self, target: &DstStruct<[usize]>) -> bool {
        target.d == self.d
    }

    fn metadata() -> Metadata {
        Metadata::Length(3)
    }

    fn upcast(&self) -> &DstStruct<[usize]> {
        self
    }
}

fn check_direct<T: PartialEq + Debug>(a: T, b: T) {
    let mut init = DirectInitializer::new(a);
    let layout = init.layout();
    assert_eq!(layout, Layout::new::<T>());
    assert_eq!(layout.size(), std::alloc::Layout::new::<T>().size());
    assert_eq!(layout.align(), std::alloc::Layout::new::<T>().align());
    let obj = place_boxed(init);
    assert_eq!(*obj.get(), b);
}

#[test]
fn test_direct_initializer() {
    check_direct(12345usize, 12345usize);
    check_direct(127u8, 127u8);
    check_direct(456131248u32, 456131248u32);
    check_direct(4123456789u64, 4123456789u64);
    check_direct(1.0f64, 1.0f64);

    let a = FstStruct { a: 159, b: 47521, c: 12345.12345 };
    check_direct(a, a);
}

#[test]
fn test_coercion_initializer() {
    let a = FstStruct { a: 159, b: 47521, c: 12345.12345 };
    let init = CoercionInitializer::new(a);
    let data: Box<Handle<Coerced<FstStruct, dyn Debug>>> = place_boxed(init);
    assert_eq!(format!("{:?}", data.get().target()), "159,47521,12345.12345");

    let create = || DstStruct { a: 156, b: 157, c: 175, d: [1usize, 13123usize, 13123usize] };
    let init = CoercionInitializer::new(create());
    let data: Box<Handle<Coerced<DstStruct<[usize; 3]>, DstStruct<[usize]>>>> = place_boxed(init);
    assert_eq!(format!("{:?}", data.get().target()), format!("{:?}", create()));
}

#[test]
fn test_slice_fn_initializer() {
    let mut i = 0;
    let init = SliceFnInitializer::new(10065, || {
        i += 1;
        i
    });
    let data = place_boxed(init);
    i = 1;
    for x in data.get().iter() {
        assert_eq!(i, *x);
        i += 1;
    }
    assert_eq!(data.get().len(), 10065);
    assert_eq!(data.metadata(), Metadata::Length(10065));
}

#[test]
fn test_slice_iter_initializer() {
    let init = SliceIterInitializer::new(100, 0..100);
    let data = place_boxed(init);
    for x in 0..100 {
        assert_eq!(data.get()[x], x)
    }
}

#[test]
fn test_raw_initializer() {
    let init = RawInitializer::new(Layout::new::<[u8; 10]>(), |mem: Memory| {
        let start = Memory::new(mem.addr(), 10).expect("error when creating NonNull");
        let mut items = Vec::new();
        for x in 0..10 {
            items.push(x as u8);
        }
        Handle {
            addr: start.addr(),
            layout: Layout::new::<[u8; 10]>(),
            metadata: Metadata::Length(10),
            value: items,
        }
    });
    let data = place_boxed(init);
    for x in 0..10 {
        assert_eq!(data.get()[x], x as u8)
    }
}
