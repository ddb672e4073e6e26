use vstd::prelude::*;

verus! {

/// A set of registered passwords, kept as a list in which no password
/// occurs twice.
///
/// A `HashSet<String>` would serve at run time, but vstd's contracts for
/// `HashSet::insert` and `HashSet::contains` hold only for key types that
/// satisfy `obeys_key_model`, and vstd gives that for integers, `bool` and
/// boxes of them, not for `String`; over passwords they would promise
/// nothing. The list with its invariant gives the same set behaviour with
/// contracts that can be proved.
pub struct Senhas {
    itens: Vec<String>,
}

impl View for Senhas {
    type V = Set<Seq<char>>;

    closed spec fn view(&self) -> Set<Seq<char>> {
        Set::new(|s: Seq<char>| exists|i: int| 0 <= i < self.itens@.len() && #[trigger] self.itens@[i]@ == s)
    }
}

impl Senhas {
    #[verifier::type_invariant]
    spec fn sem_repeticao(self) -> bool {
        forall|i: int, j: int|
            0 <= i < j < self.itens@.len() ==> #[trigger] self.itens@[i]@ != #[trigger] self.itens@[j]@
    }

    /// No password is registered.
    pub fn new() -> (s: Self)
        ensures
            s@ == Set::<Seq<char>>::empty(),
    {
        let s = Senhas { itens: Vec::new() };
        assert(s@ =~= Set::<Seq<char>>::empty());
        s
    }

    /// Whether `senha` is registered.
    pub fn contains(&self, senha: &String) -> (r: bool)
        ensures
            r == self@.contains(senha@),
    {
        let n = self.itens.len();
        let mut i: usize = 0;
        while i < n
            invariant
                n == self.itens@.len(),
                i <= n,
                forall|j: int| 0 <= j < i ==> self.itens@[j]@ != senha@,
            decreases n - i,
        {
            if self.itens[i] == *senha {
                assert(self@.contains(senha@) <==> exists|k: int| 0 <= k < self.itens@.len() && #[trigger] self.itens@[k]@ == senha@);
                return true;
            }
            i += 1;
        }
        false
    }

    /// Registers `senha`; answers whether it was new.
    pub fn insert(&mut self, senha: String) -> (novo: bool)
        ensures
            final(self)@ == old(self)@.insert(senha@),
            novo == !old(self)@.contains(senha@),
    {
        if self.contains(&senha) {
            assert(self@.insert(senha@) =~= self@);
            false
        } else {
            proof {
                use_type_invariant(&*self);
            }
            let ghost antes = self.itens@;
            let ghost vista = senha@;
            let mut itens: Vec<String> = Vec::new();
            std::mem::swap(&mut itens, &mut self.itens);
            itens.push(senha);
            assert(itens@[antes.len() as int]@ == vista);
            assert(forall|k: int| 0 <= k < antes.len() ==> itens@[k] == antes[k]);
            self.itens = itens;
            assert(self@ =~= old(self)@.insert(vista)) by {
                assert forall|s: Seq<char>| self@.contains(s) <==> old(self)@.insert(vista).contains(s) by {
                    if old(self)@.contains(s) {
                        let k = choose|k: int| 0 <= k < antes.len() && #[trigger] antes[k]@ == s;
                        assert(self.itens@[k]@ == s);
                    }
                    if self@.contains(s) {
                        let k = choose|k: int| 0 <= k < self.itens@.len() && #[trigger] self.itens@[k]@ == s;
                        if k < antes.len() {
                            assert(antes[k]@ == s);
                        }
                    }
                }
            }
            true
        }
    }
}

} // verus!
