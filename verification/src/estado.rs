use vstd::prelude::*;

use crate::dispositivos::{AutomacaoResidencial, ChangeMode, Dispositivo, UpdateData};
use crate::relogio::{proxima_hora, Clock};
use crate::senhas::Senhas;
use crate::travas::{LockDevice, UpdateLockData};

verus! {

/// How the latest weather reading compares with the house's thresholds:
/// rain at or above its limit, and temperature below the comfort minimum,
/// above it, and below the comfort maximum.
#[derive(Clone, Copy, Debug, PartialEq, Eq, Structural)]
pub struct CondicaoClima {
    pub chuva_forte: bool,
    pub abaixo_do_minimo: bool,
    pub acima_do_minimo: bool,
    pub abaixo_do_maximo: bool,
}

/// The whole state of the controller as plain values.
pub struct EstadoCasa {
    pub automacao: AutomacaoResidencial,
    pub travas: LockDevice,
    pub senha_correta: Seq<char>,
    pub relogio: Clock,
    pub autenticado: bool,
    pub senha_mestra: Seq<char>,
    pub usuarios: Set<Seq<char>>,
}

impl EstadoCasa {
    /// Whether `senha` opens the house: the house password or a registered one.
    pub open spec fn senha_aceita(self, senha: Seq<char>) -> bool {
        senha == self.senha_correta || self.usuarios.contains(senha)
    }

    /// Registering `nova` under the master password `mestra`.
    pub open spec fn registra(self, mestra: Seq<char>, nova: Seq<char>) -> Self {
        if mestra == self.senha_mestra {
            EstadoCasa { usuarios: self.usuarios.insert(nova), ..self }
        } else {
            self
        }
    }

    /// Logging in with `senha`.
    pub open spec fn entra(self, senha: Seq<char>) -> Self {
        if self.senha_aceita(senha) {
            EstadoCasa { automacao: self.automacao.com_acesso(), autenticado: true, ..self }
        } else {
            self
        }
    }

    /// Logging out, as claimed by a client that says whether it is logged in.
    pub open spec fn sai(self, autenticado: bool) -> Self {
        if autenticado {
            EstadoCasa {
                automacao: AutomacaoResidencial::casa_vazia(),
                autenticado: false,
                ..self
            }
        } else {
            self
        }
    }

    /// Whether an update is refused: a device it names is locked, or it
    /// names none.
    pub open spec fn bloqueado(self, u: UpdateData) -> bool {
        match self.travas.consulta(u) {
            Ok(b) => b,
            Err(_) => true,
        }
    }

    /// Applying a device update unless it is refused.
    pub open spec fn atualiza(self, u: UpdateData) -> Self {
        if self.bloqueado(u) {
            self
        } else {
            EstadoCasa { automacao: self.automacao.atualizado(u), ..self }
        }
    }

    /// Changing the device locks.
    pub open spec fn trava(self, u: UpdateLockData) -> Self {
        EstadoCasa { travas: self.travas.atualizado(u), ..self }
    }

    /// Switching the house into a named mode.
    pub open spec fn muda_modo(self, modo: Seq<char>) -> Self {
        EstadoCasa { automacao: self.automacao.no_modo(modo), ..self }
    }

    /// One period of the background routine: the clock advances, heavy rain
    /// shuts the windows and, while someone is logged in, the thermostat and
    /// the daily routine for the new hour run.
    pub open spec fn passo(self, c: CondicaoClima) -> Self {
        let relogio = Clock { hour: proxima_hora(self.relogio.hour as int) as i32 };
        let chuva = self.automacao.com_chuva(c.chuva_forte);
        let automacao = if self.autenticado {
            chuva.com_termostato(c.abaixo_do_minimo, c.acima_do_minimo, c.abaixo_do_maximo).na_hora(
                relogio.hour as int,
            )
        } else {
            chuva
        };
        EstadoCasa { automacao, relogio, ..self }
    }
}

/// The controller's state: devices, locks, passwords, clock and session.
pub struct AppState {
    pub automacao_residencial: AutomacaoResidencial,
    pub lock_devices: LockDevice,
    pub correct_password: String,
    pub clock_atual: Clock,
    pub authenticated: bool,
    pub master_password: String,
    pub users: Senhas,
}

impl View for AppState {
    type V = EstadoCasa;

    open spec fn view(&self) -> EstadoCasa {
        EstadoCasa {
            automacao: self.automacao_residencial,
            travas: self.lock_devices,
            senha_correta: self.correct_password@,
            relogio: self.clock_atual,
            autenticado: self.authenticated,
            senha_mestra: self.master_password@,
            usuarios: self.users@,
        }
    }
}

/// Whether an update must be refused: a device it names is locked, or it
/// names no device at all.
pub fn device_is_locked(state: &AppState, new_data: UpdateData) -> (b: bool)
    ensures
        b == state@.bloqueado(new_data),
{
    let result = state.lock_devices.device_is_locked(new_data);
    match result {
        Ok(true) => true,
        Ok(false) => false,
        Err(_msg) => true,
    }
}

impl AppState {
    /// The state at start-up: devices and locks as new, clock at noon,
    /// nobody logged in and no registered password.
    pub fn new(correct_password: String, master_password: String) -> (s: Self)
        ensures
            s@.automacao == AutomacaoResidencial::inicial(),
            s@.travas == LockDevice::inicial(),
            s@.senha_correta == correct_password@,
            s@.relogio.hour == 12,
            !s@.autenticado,
            s@.senha_mestra == master_password@,
            s@.usuarios == Set::<Seq<char>>::empty(),
    {
        AppState {
            automacao_residencial: AutomacaoResidencial::new(),
            lock_devices: LockDevice::new(),
            correct_password,
            clock_atual: Clock::new(),
            authenticated: false,
            users: Senhas::new(),
            master_password,
        }
    }

    /// Registers `new_password` when `master_password` is the master
    /// password; answers whether it was accepted.
    pub fn register(&mut self, master_password: &String, new_password: String) -> (ok: bool)
        ensures
            ok == (master_password@ == old(self)@.senha_mestra),
            final(self)@ == old(self)@.registra(master_password@, new_password@),
    {
        if *master_password == self.master_password {
            self.users.insert(new_password);
            true
        } else {
            false
        }
    }

    /// Logs in with `password`: on success the house lets the user in and
    /// the session is authenticated. Answers whether the password was accepted.
    pub fn login(&mut self, password: &String) -> (ok: bool)
        ensures
            ok == old(self)@.senha_aceita(password@),
            final(self)@ == old(self)@.entra(password@),
    {
        if *password == self.correct_password || self.users.contains(password) {
            self.automacao_residencial.acesso_garantido();
            self.authenticated = true;
            true
        } else {
            false
        }
    }

    /// Logs out when the client says it is logged in: the house goes into
    /// its empty-house state. Answers whether the logout was done.
    pub fn logout(&mut self, authenticated: bool) -> (ok: bool)
        ensures
            ok == authenticated,
            final(self)@ == old(self)@.sai(authenticated),
    {
        if authenticated {
            self.automacao_residencial.fora_de_casa();
            self.authenticated = false;
            true
        } else {
            false
        }
    }

    /// Applies a device update unless it is refused, then reports the devices.
    pub fn update_data(&mut self, new_data: UpdateData) -> (data: Vec<(String, bool)>)
        ensures
            final(self)@ == old(self)@.atualiza(new_data),
            forall|d: Dispositivo|
                #[trigger] old(self).lock_devices.travado(d) ==> final(self).automacao_residencial.estado(d)
                    == old(self).automacao_residencial.estado(d),
            crate::dispositivos::vista_relatorio(data@) == final(self)@.automacao.relatorio(),
    {
        let result = device_is_locked(self, new_data);
        if !result {
            self.automacao_residencial.update(new_data);
        }
        proof {
            assert forall|d: Dispositivo| #[trigger] old(self).lock_devices.travado(d) implies self.automacao_residencial.estado(d)
                == old(self).automacao_residencial.estado(d) by {
                crate::leis::lei_dispositivo_travado_nao_muda(old(self)@, new_data, d);
            }
        }
        self.automacao_residencial.return_data()
    }

    /// Changes the device locks, then reports them.
    pub fn lock_device(&mut self, new_data: UpdateLockData) -> (data: Vec<(String, bool)>)
        ensures
            final(self)@ == old(self)@.trava(new_data),
            crate::dispositivos::vista_relatorio(data@) == final(self)@.travas.relatorio(),
    {
        self.lock_devices.update(new_data);
        self.lock_devices.return_data()
    }

    /// Switches the house into a named mode, then reports the devices.
    pub fn set_mode(&mut self, mode: ChangeMode) -> (data: Vec<(String, bool)>)
        ensures
            final(self)@ == old(self)@.muda_modo(mode.modo@),
            crate::dispositivos::vista_relatorio(data@) == final(self)@.automacao.relatorio(),
    {
        self.automacao_residencial.change_mode(mode);
        self.automacao_residencial.return_data()
    }

    /// One period of the background routine, given the latest weather.
    pub fn passo_periodico(&mut self, clima: CondicaoClima)
        ensures
            final(self)@ == old(self)@.passo(clima),
    {
        self.clock_atual.increment_hour();
        let hora_atual = self.clock_atual.hour;
        self.automacao_residencial.precipitacao(clima.chuva_forte);
        if self.authenticated {
            self.automacao_residencial.termostato(
                clima.abaixo_do_minimo,
                clima.acima_do_minimo,
                clima.abaixo_do_maximo,
            );
            self.automacao_residencial.dormindo_ou_acordado(hora_atual);
        }
    }
}

} // verus!
